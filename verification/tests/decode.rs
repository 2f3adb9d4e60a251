use forkwait::decode_status;
use forkwait::Status;

#[test]
fn exit_code_one_decodes() {
    assert_eq!(decode_status(1 << 8), Status::Exited(1));
}

#[test]
fn kill_signal_decodes() {
    // SIGKILL is signal 9; a kill without a core dump is reported through
    // the raw word 9 itself.
    assert_eq!(decode_status(9), Status::Signaled(9));
}

#[test]
fn exit_zero_decodes() {
    assert_eq!(decode_status(0), Status::Exited(0));
}

#[test]
fn exit_max_code_decodes() {
    assert_eq!(decode_status(255 << 8), Status::Exited(255));
}

#[test]
fn signal_with_core_flag_decodes() {
    // 0x80 is the core-dump flag: it does not change the reported signal.
    assert_eq!(decode_status(0x80 | 6), Status::Signaled(6));
}

#[test]
fn exit_and_signal_are_exclusive() {
    for raw in 0..1024u32 {
        let st = decode_status(raw);
        match st {
            Status::Exited(code) => {
                assert_eq!(raw & 0x7f, 0);
                assert_eq!(code, (raw >> 8) & 0xff);
            }
            Status::Signaled(sig) => {
                assert_ne!(raw & 0x7f, 0);
                assert_eq!(sig, raw & 0x7f);
            }
        }
    }
}
