use ws_bridge::{
    ConnectError, ConnectionState, Incoming, Link, Message, Polled, ReaderStep, Refusal, SendError,
    Session,
    TransitionError, WriteOutcome, WriterAction,
};

fn text(s: &str) -> Message {
    Message::Text(s.to_string())
}

#[test]
fn connect_to_unreachable_endpoint_fails_without_a_bridge() {
    let mut session = Session::new();
    assert_eq!(session.state(), ConnectionState::Disconnected);
    assert_eq!(session.advance(ConnectionState::Connecting), Ok(()));
    let r = session.finish_connect(Err(ConnectError::Unreachable), 8);
    assert!(matches!(r, Err(ConnectError::Unreachable)));
    assert_eq!(session.state(), ConnectionState::Failed(ConnectError::Unreachable));
    assert_eq!(
        session.advance(ConnectionState::Connected),
        Err(TransitionError::NotAllowed)
    );
}

#[test]
fn connect_success_yields_a_fresh_link() {
    let mut session = Session::new();
    session.advance(ConnectionState::Connecting).unwrap();
    let link = session.finish_connect(Ok(()), 8);
    assert!(link.is_ok());
    assert_eq!(session.state(), ConnectionState::Connected);
    let Link { mut bridge, reader, writer } = link.ok().unwrap();
    assert!(bridge.is_outbound_open());
    assert!(bridge.is_inbound_open());
    assert!(!reader.done());
    assert!(!writer.done());
    assert_eq!(bridge.tick(), Vec::<Message>::new());
}

#[test]
fn texts_sent_in_one_tick_are_written_in_order() {
    let Link { mut bridge, reader: _reader, mut writer } = Link::new(8);
    assert_eq!(bridge.send(text("a")), Ok(()));
    assert_eq!(bridge.send(text("b")), Ok(()));
    assert_eq!(writer.next(10), WriterAction::WriteText("a".to_string()));
    writer.on_write_result(&WriteOutcome::Written);
    assert_eq!(writer.next(10), WriterAction::WriteText("b".to_string()));
    writer.on_write_result(&WriteOutcome::Written);
    assert_eq!(writer.next(10), WriterAction::Flush);
    assert!(!writer.done());
}

#[test]
fn many_messages_keep_their_order_outbound() {
    let Link { mut bridge, reader: _reader, mut writer } = Link::new(64);
    for i in 0..50 {
        assert_eq!(bridge.send(text(&format!("m{}", i))), Ok(()));
    }
    for i in 0..50 {
        assert_eq!(writer.next(10), WriterAction::WriteText(format!("m{}", i)));
    }
}

#[test]
fn many_frames_keep_their_order_inbound() {
    let Link { mut bridge, mut reader, writer: _writer } = Link::new(8);
    for i in 0..50 {
        let step = reader.on_event(Incoming::Text(format!("f{}", i)));
        assert_eq!(step, ReaderStep::Continue);
    }
    let drained = bridge.tick();
    let expected: Vec<Message> = (0..50).map(|i| Message::Text(format!("f{}", i))).collect();
    assert_eq!(drained, expected);
    assert_eq!(bridge.tick(), Vec::<Message>::new());
}

#[test]
fn peer_close_gives_one_close_then_nothing() {
    let Link { mut bridge, mut reader, writer: _writer } = Link::new(8);
    assert_eq!(reader.on_event(Incoming::Close), ReaderStep::Stop);
    assert!(reader.done());
    assert_eq!(bridge.tick(), vec![Message::Close]);
    assert!(!bridge.is_inbound_open());
    assert_eq!(bridge.tick(), Vec::<Message>::new());
    assert_eq!(bridge.tick(), Vec::<Message>::new());
    assert_eq!(reader.on_event(Incoming::Text("late".to_string())), ReaderStep::Stop);
}

#[test]
fn ping_forwards_nothing_and_idle_writer_flushes() {
    let Link { mut bridge, mut reader, mut writer } = Link::new(8);
    assert_eq!(reader.on_event(Incoming::Ping), ReaderStep::Continue);
    assert_eq!(bridge.tick(), Vec::<Message>::new());
    assert_eq!(writer.next(5), WriterAction::Flush);
}

#[test]
fn pong_and_other_frames_forward_nothing() {
    let Link { mut bridge, mut reader, writer: _writer } = Link::new(8);
    assert_eq!(reader.on_event(Incoming::Pong), ReaderStep::Continue);
    assert_eq!(reader.on_event(Incoming::Other), ReaderStep::Continue);
    assert_eq!(reader.on_event(Incoming::Text("x".to_string())), ReaderStep::Continue);
    assert_eq!(bridge.tick(), vec![text("x")]);
}

#[test]
fn transport_failure_gives_one_error_and_ends_reading() {
    let Link { mut bridge, mut reader, writer: _writer } = Link::new(8);
    reader.on_event(Incoming::Text("before".to_string()));
    assert_eq!(reader.on_event(Incoming::Failure("reset".to_string())), ReaderStep::Stop);
    assert_eq!(
        bridge.tick(),
        vec![text("before"), Message::Error("reset".to_string())]
    );
    assert_eq!(bridge.tick(), Vec::<Message>::new());
}

#[test]
fn send_after_writer_terminated_is_refused() {
    let Link { mut bridge, reader: _reader, writer } = Link::new(8);
    drop(writer);
    assert_eq!(bridge.send(text("a")), Err(SendError::ChannelClosed));
    assert!(!bridge.is_outbound_open());
    assert_eq!(bridge.send(text("b")), Err(SendError::ChannelClosed));
    assert_eq!(bridge.send(Message::Close), Err(SendError::ChannelClosed));
}

#[test]
fn nothing_after_close_is_transmitted() {
    let Link { mut bridge, reader: _reader, mut writer } = Link::new(8);
    assert_eq!(bridge.send(text("a")), Ok(()));
    assert_eq!(bridge.send(Message::Close), Ok(()));
    assert_eq!(bridge.send(text("late")), Err(SendError::ChannelClosed));
    assert_eq!(writer.next(10), WriterAction::WriteText("a".to_string()));
    assert_eq!(writer.next(10), WriterAction::WriteClose);
    assert!(writer.done());
    assert_eq!(writer.next(10), WriterAction::Stop);
}

#[test]
fn full_outbound_channel_refuses_new_messages() {
    let Link { mut bridge, reader: _reader, mut writer } = Link::new(1);
    assert_eq!(bridge.send(text("a")), Ok(()));
    assert_eq!(bridge.send(text("b")), Err(SendError::Full));
    assert!(bridge.is_outbound_open());
    assert_eq!(writer.next(10), WriterAction::WriteText("a".to_string()));
    assert_eq!(bridge.send(text("c")), Ok(()));
    assert_eq!(writer.next(10), WriterAction::WriteText("c".to_string()));
}

#[test]
fn error_messages_are_written_as_text() {
    let Link { mut bridge, reader: _reader, mut writer } = Link::new(4);
    assert_eq!(bridge.send(Message::Error("oops".to_string())), Ok(()));
    assert_eq!(writer.next(10), WriterAction::WriteText("oops".to_string()));
    assert!(!writer.done());
}

#[test]
fn failed_write_keeps_writer_running_but_closed_connection_stops_it() {
    let Link { mut bridge, reader: _reader, mut writer } = Link::new(4);
    bridge.send(text("a")).unwrap();
    assert_eq!(writer.next(10), WriterAction::WriteText("a".to_string()));
    writer.on_write_result(&WriteOutcome::Failed("broken pipe".to_string()));
    assert!(!writer.done());
    writer.on_write_result(&WriteOutcome::ConnectionClosed);
    assert!(writer.done());
    assert_eq!(writer.next(10), WriterAction::Stop);
}

#[test]
fn writer_stops_when_bridge_is_gone() {
    let Link { bridge, reader: _reader, mut writer } = Link::new(4);
    drop(bridge);
    assert_eq!(writer.next(10), WriterAction::Stop);
    assert!(writer.done());
}

#[test]
fn reader_stops_when_bridge_is_gone() {
    let Link { bridge, mut reader, writer: _writer } = Link::new(4);
    drop(bridge);
    assert_eq!(reader.on_event(Incoming::Ping), ReaderStep::Continue);
    assert_eq!(reader.on_event(Incoming::Text("x".to_string())), ReaderStep::Stop);
    assert!(reader.done());
}

#[test]
fn tick_sees_reader_gone() {
    let Link { mut bridge, reader, writer: _writer } = Link::new(4);
    drop(reader);
    assert_eq!(bridge.tick(), Vec::<Message>::new());
    assert!(!bridge.is_inbound_open());
}

#[test]
fn describe_labels_each_message() {
    assert_eq!(text("hi").describe(), "MESSAGE: hi");
    assert_eq!(Message::Error("bad".to_string()).describe(), "ERROR: bad");
    assert_eq!(Message::Close.describe(), "Server requested close");
}

#[test]
fn lifecycle_moves_only_forward() {
    let mut session = Session::new();
    assert_eq!(
        session.advance(ConnectionState::Connected),
        Err(TransitionError::NotAllowed)
    );
    assert_eq!(session.advance(ConnectionState::Connecting), Ok(()));
    assert_eq!(session.advance(ConnectionState::Connected), Ok(()));
    assert_eq!(session.advance(ConnectionState::Connecting), Err(TransitionError::NotAllowed));
    assert_eq!(session.advance(ConnectionState::Closing), Ok(()));
    assert_eq!(session.advance(ConnectionState::Closed), Ok(()));
    assert_eq!(session.advance(ConnectionState::Connecting), Err(TransitionError::NotAllowed));
    assert_eq!(session.advance(ConnectionState::Failed(ConnectError::Tls)), Err(TransitionError::NotAllowed));
    assert_eq!(session.state(), ConnectionState::Closed);
}

#[test]
fn handshake_failure_is_reported() {
    let mut session = Session::new();
    session.advance(ConnectionState::Connecting).unwrap();
    let r = session.finish_connect(Err(ConnectError::Handshake), 4);
    assert!(matches!(r, Err(ConnectError::Handshake)));
    assert_eq!(session.state(), ConnectionState::Failed(ConnectError::Handshake));
}

#[test]
fn drain_returns_waiting_messages_in_order() {
    let Link { mut bridge, mut reader, writer: _writer } = Link::new(8);
    reader.on_event(Incoming::Text("hi".to_string()));
    reader.on_event(Incoming::Failure("x".to_string()));
    let drained = bridge.tick();
    assert_eq!(drained, vec![text("hi"), Message::Error("x".to_string())]);
    let lines: Vec<String> = drained.iter().map(|m| m.describe()).collect();
    assert_eq!(lines, vec!["MESSAGE: hi".to_string(), "ERROR: x".to_string()]);
}

#[test]
fn settle_maps_each_channel_answer() {
    let Link { mut bridge, reader: _r, writer: _w } = Link::new(4);
    assert_eq!(bridge.settle(false, Err(Refusal::Full)), Err(SendError::Full));
    assert!(bridge.is_outbound_open());
    assert_eq!(bridge.settle(false, Ok(())), Ok(()));
    assert!(bridge.is_outbound_open());
    assert_eq!(bridge.settle(false, Err(Refusal::Disconnected)), Err(SendError::ChannelClosed));
    assert!(!bridge.is_outbound_open());
    assert_eq!(bridge.send(text("after")), Err(SendError::ChannelClosed));
}

#[test]
fn settle_of_accepted_close_shuts_outbound() {
    let Link { mut bridge, reader: _r, writer: _w } = Link::new(4);
    assert_eq!(bridge.settle(true, Ok(())), Ok(()));
    assert!(!bridge.is_outbound_open());
}

#[test]
fn take_polled_handles_each_poll_result() {
    let Link { mut bridge, reader: _r, writer: _w } = Link::new(4);
    let mut out: Vec<Message> = Vec::new();
    assert!(bridge.take_polled(Polled::Got(text("a")), &mut out));
    assert_eq!(out, vec![text("a")]);
    assert!(!bridge.take_polled(Polled::Empty, &mut out));
    assert_eq!(out, vec![text("a")]);
    assert!(bridge.is_inbound_open());
    assert!(!bridge.take_polled(Polled::Got(Message::Close), &mut out));
    assert_eq!(out, vec![text("a"), Message::Close]);
    assert!(!bridge.is_inbound_open());
}

#[test]
fn take_polled_disconnected_shuts_inbound() {
    let Link { mut bridge, reader: _r, writer: _w } = Link::new(4);
    let mut out: Vec<Message> = Vec::new();
    assert!(!bridge.take_polled(Polled::Disconnected, &mut out));
    assert!(out.is_empty());
    assert!(!bridge.is_inbound_open());
}

#[test]
fn writer_on_polled_handles_each_wait_result() {
    let Link { bridge: _b, reader: _r, mut writer } = Link::new(4);
    assert_eq!(writer.on_polled(Polled::Empty), WriterAction::Flush);
    assert_eq!(
        writer.on_polled(Polled::Got(Message::Error("e".to_string()))),
        WriterAction::WriteText("e".to_string())
    );
    assert!(!writer.done());
    assert_eq!(writer.on_polled(Polled::Got(Message::Close)), WriterAction::WriteClose);
    assert!(writer.done());
}

#[test]
fn writer_on_polled_disconnected_stops() {
    let Link { bridge: _b, reader: _r, mut writer } = Link::new(4);
    assert_eq!(writer.on_polled(Polled::Disconnected), WriterAction::Stop);
    assert!(writer.done());
}

#[test]
fn reader_step_after_each_answer() {
    assert_eq!(ReaderStep::after(false, None), ReaderStep::Continue);
    assert_eq!(ReaderStep::after(false, Some(Ok(()))), ReaderStep::Continue);
    assert_eq!(ReaderStep::after(false, Some(Err(Refusal::Full))), ReaderStep::Continue);
    assert_eq!(ReaderStep::after(false, Some(Err(Refusal::Disconnected))), ReaderStep::Stop);
    assert_eq!(ReaderStep::after(true, Some(Ok(()))), ReaderStep::Stop);
    assert_eq!(ReaderStep::after(true, None), ReaderStep::Stop);
}
