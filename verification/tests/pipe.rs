use desync::pipe::{PipePoll, PipeRead, PipeStreamCore, PIPE_BACKPRESSURE_COUNT};

#[test]
fn pipe_values_come_out_in_order() {
    let mut core: PipeStreamCore<i32, &str> = PipeStreamCore::new();
    assert_eq!(core.push_item(3), None);
    core.push_item(43);
    core.push_item(46);
    assert!(matches!(core.poll_next("reader"), (PipePoll::Item(3), None)));
    assert!(matches!(core.poll_next("reader"), (PipePoll::Item(43), None)));
    assert!(matches!(core.poll_next("reader"), (PipePoll::Item(46), None)));
    assert!(matches!(core.poll_next("reader"), (PipePoll::Pending, None)));
}

#[test]
fn pending_reader_is_woken_by_the_next_value() {
    let mut core: PipeStreamCore<i32, &str> = PipeStreamCore::new();
    assert!(matches!(core.poll_next("reader"), (PipePoll::Pending, None)));
    assert_eq!(core.push_item(1), Some("reader"));
    assert_eq!(core.push_item(2), None);
}

#[test]
fn full_buffer_holds_the_pipe_back() {
    let mut core: PipeStreamCore<i32, &str> = PipeStreamCore::new();
    core.set_backpressure_depth(3);
    for value in 0..3 {
        assert!(matches!(core.begin_read("pipe"), PipeRead::Read));
        core.push_item(value);
    }
    assert!(matches!(core.begin_read("pipe"), PipeRead::Backpressure));
    // Taking a value releases the backpressure and hands back the pipe's waker
    assert!(matches!(core.poll_next("reader"), (PipePoll::Item(0), Some("pipe"))));
    assert!(matches!(core.begin_read("pipe"), PipeRead::Read));
}

#[test]
fn default_backpressure_depth_is_five() {
    let mut core: PipeStreamCore<i32, &str> = PipeStreamCore::new();
    assert_eq!(PIPE_BACKPRESSURE_COUNT, 5);
    for value in 0..5 {
        assert!(matches!(core.begin_read("pipe"), PipeRead::Read));
        core.push_item(value);
    }
    assert!(matches!(core.begin_read("pipe"), PipeRead::Backpressure));
}

#[test]
fn ended_input_closes_the_stream_after_its_values() {
    let mut core: PipeStreamCore<i32, &str> = PipeStreamCore::new();
    core.push_item(3);
    assert!(matches!(core.poll_next("reader"), (PipePoll::Item(3), None)));
    assert!(matches!(core.poll_next("reader"), (PipePoll::Pending, None)));
    core.clear_stream_closed_notify();
    assert_eq!(core.input_ended(), Some("reader"));
    assert!(matches!(core.poll_next("reader"), (PipePoll::Closed, None)));
    assert!(matches!(core.poll_next("reader"), (PipePoll::Closed, None)));
}

#[test]
fn dropped_output_flushes_and_stops_the_pipe() {
    let mut core: PipeStreamCore<i32, &str> = PipeStreamCore::new();
    core.push_item(1);
    core.wait_for_input("pipe");
    assert_eq!(core.close_output(), Some("pipe"));
    assert!(matches!(core.poll_next("reader"), (PipePoll::Closed, None)));
    assert!(matches!(core.begin_read("pipe"), PipeRead::Close(None)));
}
