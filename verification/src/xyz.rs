//! Per-axis data: an axis tag and a record holding one value for each axis.

use vstd::prelude::*;
use vstd::pervasive::cloned;
use vstd::std_specs::ops::{AddSpec, MulSpec, SubSpec};
use core::ops::{Add, Mul, Sub};
use crate::ast::ArgumentMnumonic;

verus! {

/// Identity of one of the three axes.
#[derive(Clone, Copy, PartialEq, Eq, Structural, Debug)]
pub enum XYZId {
    X,
    Y,
    Z,
}

/// A value tagged with the axis it belongs to.
#[derive(Clone, Copy, Debug)]
pub enum XYZOne<T> {
    X(T),
    Y(T),
    Z(T),
}

/// One value per axis.
#[derive(Clone, Copy, Debug)]
pub struct XYZData<T> {
    pub x: T,
    pub y: T,
    pub z: T,
}

impl<T> XYZData<T> {
    /// The component that belongs to `id`.
    pub open spec fn component(self, id: XYZId) -> T {
        match id {
            XYZId::X => self.x,
            XYZId::Y => self.y,
            XYZId::Z => self.z,
        }
    }

    /// A record whose three components are copies of `state`.
    pub fn from_clone(state: T) -> (r: Self) where T: Clone
        ensures
            cloned(state, r.x),
            cloned(state, r.y),
            r.z == state,
    {
        Self { x: state.clone(), y: state.clone(), z: state }
    }

    /// The three components by reference, in the order X, Y, Z.
    pub fn as_ref_array(&self) -> (r: [&T; 3])
        ensures
            *r[0] == self.x,
            *r[1] == self.y,
            *r[2] == self.z,
    {
        [&self.x, &self.y, &self.z]
    }

    /// The three components by mutable reference, in the order X, Y, Z.
    pub fn as_ref_array_mut(&mut self) -> (r: [&mut T; 3])
        ensures
            *r[0] == old(self).x,
            *r[1] == old(self).y,
            *r[2] == old(self).z,
            final(self).x == *final(r[0]),
            final(self).y == *final(r[1]),
            final(self).z == *final(r[2]),
    {
        [&mut self.x, &mut self.y, &mut self.z]
    }

    /// Whether `predicate` holds of all three components. The components
    /// are asked in the order X, Y, Z, up to the first of which it fails.
    pub fn all<F: Fn(&T) -> bool>(&self, predicate: F) -> (r: bool)
        requires
            predicate.requires((&self.x,)),
            predicate.requires((&self.y,)),
            predicate.requires((&self.z,)),
        ensures
            r ==> predicate.ensures((&self.x,), true) && predicate.ensures((&self.y,), true)
                && predicate.ensures((&self.z,), true),
            !r ==> predicate.ensures((&self.x,), false) || predicate.ensures((&self.y,), false)
                || predicate.ensures((&self.z,), false),
    {
        predicate(&self.x) && predicate(&self.y) && predicate(&self.z)
    }

    /// Applies `action` to the component that belongs to `axis` and returns
    /// what it returns; the other two components are not touched.
    pub fn one_map_mut<TR, F: Fn(&mut T) -> TR>(&mut self, axis: XYZId, action: F) -> (r: TR)
        requires
            forall|part: &mut T|
                *part == old(self).component(axis) ==> #[trigger] action.requires((part,)),
        ensures
            axis != XYZId::X ==> final(self).x == old(self).x,
            axis != XYZId::Y ==> final(self).y == old(self).y,
            axis != XYZId::Z ==> final(self).z == old(self).z,
            exists|part: &mut T|
                *part == old(self).component(axis) && *final(part) == final(self).component(axis)
                    && #[trigger] action.ensures((part,), r),
    {
        match axis {
            XYZId::X => action(&mut self.x),
            XYZId::Y => action(&mut self.y),
            XYZId::Z => action(&mut self.z),
        }
    }

    /// The record of what `p` makes of each component.
    pub fn map<TR, F: Fn(&T) -> TR>(&self, p: F) -> (r: XYZData<TR>)
        requires
            p.requires((&self.x,)),
            p.requires((&self.y,)),
            p.requires((&self.z,)),
        ensures
            p.ensures((&self.x,), r.x),
            p.ensures((&self.y,), r.y),
            p.ensures((&self.z,), r.z),
    {
        XYZData { x: p(&self.x), y: p(&self.y), z: p(&self.z) }
    }

    /// Borrows the component that belongs to `id`.
    pub fn match_id(&self, id: XYZId) -> (r: &T)
        ensures
            *r == self.component(id),
    {
        match id {
            XYZId::X => &self.x,
            XYZId::Y => &self.y,
            XYZId::Z => &self.z,
        }
    }

    /// Mutably borrows the component that belongs to `id`; the other two
    /// components keep their values.
    pub fn match_id_mut(&mut self, id: XYZId) -> (r: &mut T)
        ensures
            *r == old(self).component(id),
            id == XYZId::X ==> *final(self) == (XYZData { x: *final(r), ..*old(self) }),
            id == XYZId::Y ==> *final(self) == (XYZData { y: *final(r), ..*old(self) }),
            id == XYZId::Z ==> *final(self) == (XYZData { z: *final(r), ..*old(self) }),
    {
        match id {
            XYZId::X => &mut self.x,
            XYZId::Y => &mut self.y,
            XYZId::Z => &mut self.z,
        }
    }
}

impl<T: Add<Output = T>> Add for XYZData<T> {
    type Output = XYZData<T>;

    /// Adds axis by axis.
    fn add(self, rhs: Self) -> (r: Self::Output) {
        Self { x: self.x + rhs.x, y: self.y + rhs.y, z: self.z + rhs.z }
    }
}

impl<T: Add<Output = T>> vstd::std_specs::ops::AddSpecImpl for XYZData<T> {
    open spec fn obeys_add_spec() -> bool {
        T::obeys_add_spec()
    }

    open spec fn add_req(self, rhs: Self) -> bool {
        self.x.add_req(rhs.x) && self.y.add_req(rhs.y) && self.z.add_req(rhs.z)
    }

    open spec fn add_spec(self, rhs: Self) -> Self {
        XYZData { x: self.x.add_spec(rhs.x), y: self.y.add_spec(rhs.y), z: self.z.add_spec(rhs.z) }
    }
}

impl<T: Sub<Output = T>> Sub for XYZData<T> {
    type Output = XYZData<T>;

    /// Subtracts axis by axis.
    fn sub(self, rhs: Self) -> (r: Self::Output) {
        Self { x: self.x - rhs.x, y: self.y - rhs.y, z: self.z - rhs.z }
    }
}

impl<T: Sub<Output = T>> vstd::std_specs::ops::SubSpecImpl for XYZData<T> {
    open spec fn obeys_sub_spec() -> bool {
        T::obeys_sub_spec()
    }

    open spec fn sub_req(self, rhs: Self) -> bool {
        self.x.sub_req(rhs.x) && self.y.sub_req(rhs.y) && self.z.sub_req(rhs.z)
    }

    open spec fn sub_spec(self, rhs: Self) -> Self {
        XYZData { x: self.x.sub_spec(rhs.x), y: self.y.sub_spec(rhs.y), z: self.z.sub_spec(rhs.z) }
    }
}

impl<T: Mul<Output = T>> Mul for XYZData<T> {
    type Output = XYZData<T>;

    /// Multiplies axis by axis.
    fn mul(self, rhs: Self) -> (r: Self::Output) {
        Self { x: self.x * rhs.x, y: self.y * rhs.y, z: self.z * rhs.z }
    }
}

impl<T: Mul<Output = T>> vstd::std_specs::ops::MulSpecImpl for XYZData<T> {
    open spec fn obeys_mul_spec() -> bool {
        T::obeys_mul_spec()
    }

    open spec fn mul_req(self, rhs: Self) -> bool {
        self.x.mul_req(rhs.x) && self.y.mul_req(rhs.y) && self.z.mul_req(rhs.z)
    }

    open spec fn mul_spec(self, rhs: Self) -> Self {
        XYZData { x: self.x.mul_spec(rhs.x), y: self.y.mul_spec(rhs.y), z: self.z.mul_spec(rhs.z) }
    }
}

/// `value + other` where `value` is given.
pub open spec fn add_given<T: Add<Output = T>>(value: Option<T>, other: T) -> Option<T> {
    match value {
        Some(v) => Some(v.add_spec(other)),
        None => None,
    }
}

/// `value + other` can be computed where `value` is given.
pub open spec fn add_given_req<T: Add<Output = T>>(value: Option<T>, other: T) -> bool {
    match value {
        Some(v) => v.add_req(other),
        None => true,
    }
}

impl<T: Add<Output = T>> Add<XYZData<T>> for XYZData<Option<T>> {
    type Output = XYZData<Option<T>>;

    /// Adds axis by axis where a value is given.
    fn add(self, rhs: XYZData<T>) -> (r: Self::Output) {
        Self {
            x: match self.x {
                Some(x) => Some(x + rhs.x),
                None => None,
            },
            y: match self.y {
                Some(y) => Some(y + rhs.y),
                None => None,
            },
            z: match self.z {
                Some(z) => Some(z + rhs.z),
                None => None,
            },
        }
    }
}

impl<T: Add<Output = T>> vstd::std_specs::ops::AddSpecImpl<XYZData<T>> for XYZData<Option<T>> {
    open spec fn obeys_add_spec() -> bool {
        T::obeys_add_spec()
    }

    open spec fn add_req(self, rhs: XYZData<T>) -> bool {
        add_given_req(self.x, rhs.x) && add_given_req(self.y, rhs.y) && add_given_req(
            self.z,
            rhs.z,
        )
    }

    open spec fn add_spec(self, rhs: XYZData<T>) -> Self {
        XYZData {
            x: add_given(self.x, rhs.x),
            y: add_given(self.y, rhs.y),
            z: add_given(self.z, rhs.z),
        }
    }
}

/// `value - other` where `value` is given.
pub open spec fn sub_given<T: Sub<Output = T>>(value: Option<T>, other: T) -> Option<T> {
    match value {
        Some(v) => Some(v.sub_spec(other)),
        None => None,
    }
}

/// `value - other` can be computed where `value` is given.
pub open spec fn sub_given_req<T: Sub<Output = T>>(value: Option<T>, other: T) -> bool {
    match value {
        Some(v) => v.sub_req(other),
        None => true,
    }
}

impl<T: Sub<Output = T>> Sub<XYZData<T>> for XYZData<Option<T>> {
    type Output = XYZData<Option<T>>;

    /// Subtracts axis by axis where a value is given.
    fn sub(self, rhs: XYZData<T>) -> (r: Self::Output) {
        Self {
            x: match self.x {
                Some(x) => Some(x - rhs.x),
                None => None,
            },
            y: match self.y {
                Some(y) => Some(y - rhs.y),
                None => None,
            },
            z: match self.z {
                Some(z) => Some(z - rhs.z),
                None => None,
            },
        }
    }
}

impl<T: Sub<Output = T>> vstd::std_specs::ops::SubSpecImpl<XYZData<T>> for XYZData<Option<T>> {
    open spec fn obeys_sub_spec() -> bool {
        T::obeys_sub_spec()
    }

    open spec fn sub_req(self, rhs: XYZData<T>) -> bool {
        sub_given_req(self.x, rhs.x) && sub_given_req(self.y, rhs.y) && sub_given_req(
            self.z,
            rhs.z,
        )
    }

    open spec fn sub_spec(self, rhs: XYZData<T>) -> Self {
        XYZData {
            x: sub_given(self.x, rhs.x),
            y: sub_given(self.y, rhs.y),
            z: sub_given(self.z, rhs.z),
        }
    }
}

impl XYZId {
    /// The three axes in the order in which they are served.
    pub fn list() -> (r: [XYZId; 3])
        ensures
            r[0] == XYZId::X,
            r[1] == XYZId::Y,
            r[2] == XYZId::Z,
    {
        [XYZId::X, XYZId::Y, XYZId::Z]
    }

    /// The axis that an argument letter names, if it names one.
    pub open spec fn of_arg(value: ArgumentMnumonic) -> Option<XYZId> {
        match value {
            ArgumentMnumonic::X => Some(XYZId::X),
            ArgumentMnumonic::Y => Some(XYZId::Y),
            ArgumentMnumonic::Z => Some(XYZId::Z),
            _ => None,
        }
    }

    /// The axis that an argument letter names, if it names one.
    pub fn from_arg(value: ArgumentMnumonic) -> (r: Option<XYZId>)
        ensures
            r == Self::of_arg(value),
    {
        match value {
            ArgumentMnumonic::X => Some(XYZId::X),
            ArgumentMnumonic::Y => Some(XYZId::Y),
            ArgumentMnumonic::Z => Some(XYZId::Z),
            _ => None,
        }
    }
}

impl<T: Default> Default for XYZData<T> {
    fn default() -> (r: Self)
        ensures
            call_ensures(T::default, (), r.x),
            call_ensures(T::default, (), r.y),
            call_ensures(T::default, (), r.z),
    {
        XYZData { x: T::default(), y: T::default(), z: T::default() }
    }
}

} // verus!
