use std::sync::Arc;

use ds::flags::{Alliance, AllianceColor};
use ds::mode::Mode;
use ds::state::DsState;

#[test]
fn substates_start_in_their_documented_initial_values() {
    let state = DsState::new(Alliance::new_red(1));
    {
        let send = state.send().try_read().unwrap();
        assert_eq!(send.alliance.color, AllianceColor::Red);
        assert_eq!(send.alliance.station, 1);
        assert!(!send.enabled);
        assert_eq!(send.mode, None);
        assert_eq!(send.seq, 0);
    }
    {
        let recv = state.recv().try_read().unwrap();
        assert_eq!(recv.mode, None);
        assert_eq!(recv.status.bits, 0);
    }
    {
        let tcp = state.tcp().try_read().unwrap();
        assert!(!tcp.connected);
        assert!(tcp.buffer.is_empty());
    }
}

#[test]
fn substate_locks_are_independent() {
    // Holding one substate's guard never blocks another substate's guard:
    // a write lock on the send state coexists with readers and writers of
    // the receive and stream states.
    let state = DsState::new(Alliance::new_blue(2));
    let mut send = state.send().try_write().unwrap();
    send.set_enabled(true);
    let recv = state.recv().try_read().unwrap();
    let mut tcp = state.tcp().try_write().unwrap();
    tcp.on_connect();
    assert_eq!(recv.mode, None);
    assert!(send.enabled);
    // A second reader of the same substate proceeds in parallel too.
    let recv_again = state.recv().try_read().unwrap();
    assert_eq!(recv_again.status.bits, recv.status.bits);
}

#[test]
fn concurrent_writer_and_reader_make_progress() {
    // One task repeatedly writes the send state's enable flag while
    // another repeatedly reads receive-state snapshots: both run to
    // completion (no deadlock) and every observed value is a whole one.
    let runtime = tokio::runtime::Builder::new_multi_thread()
        .worker_threads(2)
        .build()
        .unwrap();
    let state = Arc::new(DsState::new(Alliance::new_red(1)));
    let writer_state = Arc::clone(&state);
    let reader_state = Arc::clone(&state);
    runtime.block_on(async move {
        let writer = tokio::spawn(async move {
            for i in 0..500u32 {
                let mut send = writer_state.send().write().await;
                send.set_enabled(i % 2 == 0);
            }
        });
        let reader = tokio::spawn(async move {
            for _ in 0..500u32 {
                let trace = reader_state.recv().read().await.trace();
                assert_eq!(trace.mode, None);
            }
        });
        writer.await.unwrap();
        reader.await.unwrap();
    });
    let send = state.send().try_read().unwrap();
    assert!(!send.enabled);
    assert_eq!(send.mode, None::<Mode>);
}
