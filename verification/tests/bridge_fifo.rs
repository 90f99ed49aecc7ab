use livi_external_ui::bridge::{ControlChannel, ExternalUIControlMessage};

fn msg(port: u32, payload: Vec<u8>) -> ExternalUIControlMessage {
    ExternalUIControlMessage {
        port_index: port,
        buffer_size: payload.len() as u32,
        port_protocol: 0,
        buffer: payload,
    }
}

#[test]
fn drained_in_enqueue_order() {
    let mut c = ControlChannel::new();
    assert!(c.send(msg(1, vec![])));
    assert!(c.send(msg(2, vec![])));
    assert!(c.send(msg(3, vec![])));
    let out = c.drain();
    let ports: Vec<u32> = out.iter().map(|m| m.port_index).collect();
    assert_eq!(ports, vec![1, 2, 3]);
}

#[test]
fn drain_when_empty_yields_empty() {
    let mut c = ControlChannel::new();
    assert!(c.drain().is_empty());
    assert!(c.drain().is_empty());
}

#[test]
fn drain_empties_the_queue() {
    let mut c = ControlChannel::new();
    c.send(msg(7, vec![1]));
    assert_eq!(c.drain().len(), 1);
    assert!(c.drain().is_empty());
}

#[test]
fn send_after_close_fails_locally_and_is_counted() {
    let mut c = ControlChannel::new();
    c.close();
    let queued = c.send(msg(1, vec![]));
    assert!(!queued);
    assert_eq!(c.dropped_sends, 1);
    assert!(c.drain().is_empty());
}

#[test]
fn batch_lands_after_earlier_singles() {
    let mut c = ControlChannel::new();
    c.send(msg(1, vec![]));
    c.send_all(vec![msg(2, vec![]), msg(3, vec![])]);
    let ports: Vec<u32> = c.drain().iter().map(|m| m.port_index).collect();
    assert_eq!(ports, vec![1, 2, 3]);
}

#[test]
fn batch_after_close_is_counted_per_message() {
    let mut c = ControlChannel::new();
    c.close();
    let queued = c.send_all(vec![msg(1, vec![]), msg(2, vec![]), msg(3, vec![])]);
    assert!(!queued);
    assert_eq!(c.dropped_sends, 3);
}

#[test]
fn clone_message_duplicates_the_payload() {
    let m = msg(9, vec![10, 20, 30]);
    let c = m.clone_message();
    drop(m);
    assert_eq!(c.port_index, 9);
    assert_eq!(c.buffer_size, 3);
    assert_eq!(c.buffer, vec![10, 20, 30]);
}
