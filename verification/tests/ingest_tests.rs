use stepper_motion::{
    direction, step, ArgumentMnumonic, AxisSlot, CanRecieveMut, CanSendMut, Channel,
    CircularBuffer, CommandMnumonics, GcodeCommand, ParseArgMnumonicError,
    ParseCommandMnumonicError, Parser, Pin, PinAction, PollCounter, Speed, XYZData, XYZId, XYZOne,
};

fn ring(bytes: &[u8]) -> CircularBuffer<u8, 100> {
    let mut rx = CircularBuffer::<u8, 100>::default();
    for b in bytes {
        rx.push(*b);
    }
    rx
}

#[test]
fn a_line_becomes_a_command_and_is_sent() {
    let mut ingest = Parser::new();
    let mut channel = Channel::<GcodeCommand, 3>::default();
    let mut rx = ring(b"G1 X5 F7\nG9");
    assert_eq!(ingest.read_serial(&mut rx, &mut channel), false);
    assert!(rx.is_empty());
    assert_eq!(ingest.input_bufer.as_slice(), b"G1 X5 F7\nG9");
    assert_eq!(ingest.parse_buffer(), Ok(()));
    assert_eq!(ingest.input_bufer.as_slice(), b"G9");
    let waiting = ingest.to_send.clone().unwrap();
    assert_eq!(waiting.command_id.major, 1);
    assert_eq!(waiting.arguments.len(), 2);
    assert!(waiting.arguments[1].mnumonic == ArgumentMnumonic::F);
    // while a command waits no further line is parsed
    let mut more = ring(b"0\n");
    assert_eq!(ingest.read_serial(&mut more, &mut channel), true);
    assert!(ingest.to_send.is_none());
    assert_eq!(ingest.input_bufer.as_slice(), b"G90\n");
    let sent = channel.recieve_mut().unwrap();
    assert_eq!(sent.arguments[0].value.major, 5);
    assert_eq!(ingest.parse_buffer(), Ok(()));
    assert_eq!(ingest.to_send.clone().unwrap().command_id.major, 90);
    assert_eq!(ingest.input_bufer.len(), 0);
}

#[test]
fn a_full_channel_keeps_the_command_waiting() {
    let mut ingest = Parser::new();
    let mut channel = Channel::<GcodeCommand, 1>::default();
    assert!(channel.send_mut(GcodeCommand::default()).is_ok());
    let mut rx = ring(b"M30\n");
    ingest.read_serial(&mut rx, &mut channel);
    assert_eq!(ingest.parse_buffer(), Ok(()));
    let mut empty = ring(b"");
    assert_eq!(ingest.read_serial(&mut empty, &mut channel), false);
    assert_eq!(ingest.to_send.clone().unwrap().command_id.major, 30);
    assert!(channel.recieve_mut().is_some());
    assert_eq!(ingest.read_serial(&mut empty, &mut channel), true);
    assert!(ingest.to_send.is_none());
    assert_eq!(channel.recieve_mut().unwrap().command_id.major, 30);
}

#[test]
fn lines_without_a_command_are_dropped() {
    let mut ingest = Parser::new();
    let mut channel = Channel::<GcodeCommand, 1>::default();
    let mut rx = ring(b"\nX1\n??\npart");
    ingest.read_serial(&mut rx, &mut channel);
    assert_eq!(ingest.parse_buffer(), Ok(()));
    assert_eq!(ingest.input_bufer.as_slice(), b"X1\n??\npart");
    assert_eq!(ingest.parse_buffer(), Ok(()));
    assert!(ingest.to_send.is_none());
    assert_eq!(ingest.parse_buffer(), Ok(()));
    assert_eq!(ingest.input_bufer.as_slice(), b"part");
    // no whole line: nothing happens
    assert_eq!(ingest.parse_buffer(), Ok(()));
    assert_eq!(ingest.input_bufer.as_slice(), b"part");
}

#[test]
fn a_line_of_too_many_words_is_refused() {
    let mut ingest = Parser::new();
    let mut channel = Channel::<GcodeCommand, 1>::default();
    let mut line = "1 ".repeat(31).into_bytes();
    line.push(b'\n');
    let mut rx = ring(&line);
    ingest.read_serial(&mut rx, &mut channel);
    assert_eq!(ingest.parse_buffer(), Err("more words than a line may hold"));
    assert!(ingest.to_send.is_none());
    assert_eq!(ingest.input_bufer.len(), 0);
}

#[test]
fn bytes_beyond_the_buffer_are_lost() {
    let mut ingest = Parser::new();
    let mut channel = Channel::<GcodeCommand, 1>::default();
    for _ in 0..2 {
        let mut rx = ring(&[b'7'; 90]);
        ingest.read_serial(&mut rx, &mut channel);
    }
    assert_eq!(ingest.input_bufer.len(), 180);
    let mut rx = ring(&[b'8'; 50]);
    ingest.read_serial(&mut rx, &mut channel);
    assert_eq!(ingest.input_bufer.len(), 200);
    assert!(rx.is_empty());
    assert_eq!(ingest.input_bufer[199], b'8');
    // a full buffer leaves the ring alone
    let mut rx = ring(b"9\n");
    ingest.read_serial(&mut rx, &mut channel);
    assert_eq!(rx.length(), 2);
    assert_eq!(ingest.input_bufer.len(), 200);
}

#[test]
fn poll_counter_fires_once_in_256_rounds() {
    let mut task = PollCounter::new(10);
    let mut fired: Vec<u32> = Vec::new();
    for round in 0..600u32 {
        if let Some(count) = task.poll_check() {
            assert_eq!(count, 10);
            fired.push(round);
        }
    }
    assert_eq!(fired, vec![10, 266, 522]);
    let mut last = PollCounter::new(255);
    for _ in 0..255 {
        assert_eq!(last.poll_check(), None);
    }
    assert_eq!(last.poll_check(), Some(255));
    assert_eq!(last.counter, 0);
}

#[test]
fn axes_are_served_in_a_circle() {
    let mut slot = AxisSlot::new();
    let mut served: Vec<Option<XYZId>> = Vec::new();
    for _ in 0..9 {
        served.push(slot.tick());
    }
    assert_eq!(
        served,
        vec![
            None,
            Some(XYZId::X),
            Some(XYZId::Y),
            Some(XYZId::Z),
            None,
            Some(XYZId::X),
            Some(XYZId::Y),
            Some(XYZId::Z),
            None,
        ]
    );
    let mut odd = AxisSlot { slot: 200 };
    assert_eq!(odd.tick(), None);
    assert_eq!(odd.slot, 0);
}

#[test]
fn axes_drive_their_lines() {
    assert_eq!(step(XYZId::X), vec![(Pin::XStep, PinAction::Toggle)]);
    assert_eq!(step(XYZId::Y), vec![(Pin::YStep, PinAction::Toggle), (Pin::E0Step, PinAction::Toggle)]);
    assert_eq!(step(XYZId::Z), vec![(Pin::ZStep, PinAction::Toggle)]);
    assert_eq!(direction(XYZId::X, true), vec![(Pin::XDir, PinAction::High)]);
    assert_eq!(direction(XYZId::Y, false), vec![(Pin::YDir, PinAction::Low), (Pin::E0Dir, PinAction::Low)]);
    assert_eq!(direction(XYZId::Z, false), vec![(Pin::ZDir, PinAction::Low)]);
    assert_eq!(PinAction::from(true), PinAction::High);
    assert_eq!(PinAction::from(false), PinAction::Low);
}

#[test]
fn records_of_three() {
    let mut data = XYZData { x: 1, y: 2, z: 3 };
    assert_eq!(*data.match_id(XYZId::Y), 2);
    *data.match_id_mut(XYZId::Z) = 9;
    assert_eq!(data.as_ref_array(), [&1, &2, &9]);
    {
        let [x, _, _] = data.as_ref_array_mut();
        *x = 7;
    }
    assert_eq!(data.x, 7);
    assert!(data.all(|v| *v > 1));
    assert!(!data.all(|v| *v > 2));
    let doubled = data.map(|v| v * 2);
    assert_eq!((doubled.x, doubled.y, doubled.z), (14, 4, 18));
    assert_eq!(data.one_map_mut(XYZId::Y, |v| {
        *v += 1;
        *v * 10
    }), 30);
    assert_eq!((data.x, data.y, data.z), (7, 3, 9));
    let same = XYZData::from_clone(String::from("a"));
    assert_eq!(same.x, "a");
    assert_eq!(same.z, "a");
    let zero = XYZData::<u8>::default();
    assert_eq!((zero.x, zero.y, zero.z), (0, 0, 0));
    assert_eq!(XYZId::list(), [XYZId::X, XYZId::Y, XYZId::Z]);
    assert_eq!(XYZId::from_arg(ArgumentMnumonic::X), Some(XYZId::X));
    assert_eq!(XYZId::from_arg(ArgumentMnumonic::Z), Some(XYZId::Z));
    assert_eq!(XYZId::from_arg(ArgumentMnumonic::F), None);
    assert!(matches!(XYZOne::Y(4), XYZOne::Y(4)));
    let speed = Speed { speed: 2.5f32, acceleration: 4 }.map(|s| (s * 2.0) as u32, |a| a + 1);
    assert_eq!(speed.speed, 5);
    assert_eq!(speed.acceleration, 5);
}

#[test]
fn letters_are_read_from_text() {
    assert_eq!("G1".parse::<CommandMnumonics>(), Ok(CommandMnumonics::G));
    assert_eq!("M".parse::<CommandMnumonics>(), Ok(CommandMnumonics::M));
    assert_eq!("N5".parse::<CommandMnumonics>(), Ok(CommandMnumonics::N));
    assert_eq!("".parse::<CommandMnumonics>(), Err(ParseCommandMnumonicError {}));
    assert_eq!("g".parse::<CommandMnumonics>(), Err(ParseCommandMnumonicError {}));
    assert_eq!("X".parse::<ArgumentMnumonic>(), Ok(ArgumentMnumonic::X));
    assert_eq!("Y2".parse::<ArgumentMnumonic>(), Ok(ArgumentMnumonic::Y));
    assert_eq!("Z".parse::<ArgumentMnumonic>(), Ok(ArgumentMnumonic::Z));
    assert_eq!("F".parse::<ArgumentMnumonic>(), Ok(ArgumentMnumonic::F));
    assert_eq!("P".parse::<ArgumentMnumonic>(), Ok(ArgumentMnumonic::P));
    assert_eq!("R".parse::<ArgumentMnumonic>(), Ok(ArgumentMnumonic::R));
    assert_eq!("".parse::<ArgumentMnumonic>(), Err(ParseArgMnumonicError {}));
    assert_eq!("G".parse::<ArgumentMnumonic>(), Err(ParseArgMnumonicError {}));
    assert!(CommandMnumonics::default() == CommandMnumonics::G);
    assert!(ArgumentMnumonic::default() == ArgumentMnumonic::X);
}

#[test]
fn records_are_combined_axis_by_axis() {
    let a = XYZData { x: 1, y: 2, z: 3 };
    let b = XYZData { x: 10, y: 20, z: 30 };
    let sum = a + b;
    assert_eq!((sum.x, sum.y, sum.z), (11, 22, 33));
    let difference = a - b;
    assert_eq!((difference.x, difference.y, difference.z), (-9, -18, -27));
    let product = a * b;
    assert_eq!((product.x, product.y, product.z), (10, 40, 90));
    let named = XYZData { x: Some(1), y: None, z: Some(3) };
    let moved = named + b;
    assert_eq!((moved.x, moved.y, moved.z), (Some(11), None, Some(33)));
    let back = named - b;
    assert_eq!((back.x, back.y, back.z), (Some(-9), None, Some(-27)));
}
