use libghostty_vt::ghostling::pty::{
    choose_shell, read_step, without_blocking, Child, Farewell, PendingWrite, PtyError,
    ReadOutcome, ReadStep, WriteOutcome,
};

#[test]
fn reads_go_on_until_there_is_nothing() {
    assert_eq!(read_step(ReadOutcome::Bytes(12)), ReadStep::Feed(12));
    assert_eq!(read_step(ReadOutcome::Again), ReadStep::Drained);
    assert_eq!(read_step(ReadOutcome::Interrupted), ReadStep::Retry);
}

#[test]
fn no_bytes_and_io_errors_end_the_stream() {
    let end = ReadStep::Ended(PtyError::EndOfStream);
    assert_eq!(read_step(ReadOutcome::Bytes(0)), end);
    assert_eq!(read_step(ReadOutcome::Io), end);
    assert_eq!(
        read_step(ReadOutcome::Other(9)),
        ReadStep::Ended(PtyError::OtherError(9))
    );
}

#[test]
fn a_write_goes_on_after_a_part() {
    let mut write = PendingWrite::new(b"hello");
    assert_eq!(write.next_chunk(), Some(b"hello".as_slice()));
    write.advance(WriteOutcome::Wrote(2));
    assert_eq!(write.next_chunk(), Some(b"llo".as_slice()));
    write.advance(WriteOutcome::Interrupted);
    assert_eq!(write.next_chunk(), Some(b"llo".as_slice()));
    write.advance(WriteOutcome::Wrote(0));
    assert_eq!(write.next_chunk(), Some(b"llo".as_slice()));
    write.advance(WriteOutcome::Wrote(3));
    assert_eq!(write.next_chunk(), None);
}

#[test]
fn a_failed_write_drops_the_rest() {
    let mut write = PendingWrite::new(b"hello");
    write.advance(WriteOutcome::Wrote(4));
    write.advance(WriteOutcome::Failed);
    assert_eq!(write.next_chunk(), None);
    assert_eq!(PendingWrite::new(b"").next_chunk(), None);
}

#[test]
fn a_child_is_active_then_exited_then_reaped() {
    let mut child = Child::Active(7);
    assert!(child.is_active());
    assert!(!child.quits());
    assert_eq!(child.to_reap(), None);
    assert_eq!(child.farewell(), Farewell::HangUpAndWait(7));
    child.wait_frame(Some("early"));
    child.read_frame(None);
    assert_eq!(child, Child::Active(7));
    child.read_frame(Some(PtyError::EndOfStream));
    assert_eq!(child, Child::Exited(7));
    assert!(!child.is_active());
    assert!(child.quits());
    assert_eq!(child.to_reap(), Some(7));
    assert_eq!(child.status(), None);
    assert_eq!(child.farewell(), Farewell::Wait(7));
    child.wait_frame(None);
    assert_eq!(child, Child::Exited(7));
    child.wait_frame(Some("killed"));
    assert_eq!(child, Child::Reaped("killed"));
    assert!(child.quits());
    assert_eq!(child.to_reap(), None);
    assert_eq!(child.status(), Some(&"killed"));
    assert_eq!(child.farewell(), Farewell::Nothing);
    child.read_frame(Some(PtyError::OtherError(5)));
    child.wait_frame(Some("again"));
    assert_eq!(child, Child::Reaped("killed"));
}

#[test]
fn any_read_error_ends_a_child() {
    let mut child: Child<()> = Child::Active(3);
    child.read_frame(Some(PtyError::OtherError(5)));
    assert_eq!(child, Child::Exited(3));
}

#[test]
fn the_named_shell_comes_first() {
    let choose = |named: Option<&'static str>, account: Option<&'static str>| {
        choose_shell(named, |shell| shell.is_empty(), || account, "/bin/sh")
    };
    assert_eq!(choose(Some("/bin/zsh"), Some("/bin/bash")), "/bin/zsh");
    assert_eq!(choose(Some(""), Some("/bin/bash")), "/bin/bash");
    assert_eq!(choose(None, Some("/bin/bash")), "/bin/bash");
    assert_eq!(choose(None, None), "/bin/sh");
    assert_eq!(choose(Some(""), None), "/bin/sh");
}

#[test]
fn flags_are_only_added() {
    assert_eq!(without_blocking(0o2, 0o4000), 0o4002);
    assert_eq!(without_blocking(0o4002, 0o4000), 0o4002);
}
