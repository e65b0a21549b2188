use overlay_routing::envelope::Malformed;
use overlay_routing::models;
use overlay_routing::models::{NetworkId, Packet, PacketType};
use overlay_routing::{Envelope, Route};

#[test]
fn new_envelope_is_blank() {
    let env = Envelope::new();
    assert_eq!(env.slip.number_remaining_routes(), 0);
    assert!(!env.slip.in_progress());
    assert_eq!((env.delay_until, env.min_delay, env.max_delay), (0, 0, 0));
    assert!(env.headers.is_empty());
    assert_eq!(env.payload, None);
    assert!(env.min_delay <= env.max_delay);
}

#[test]
fn identifiers_are_drawn_at_random() {
    let ids: Vec<u64> = (0..16).map(|_| Envelope::new().id).collect();
    assert!(ids.iter().any(|id| *id != ids[0]));
}

#[test]
fn delay_range_out_of_order_is_refused_at_construction() {
    assert_eq!(Envelope::with_id(1, 0, 501, 500).err(), Some(Malformed::DelayRange));
    assert_eq!(Envelope::with_delay(0, 1, 0).err(), Some(Malformed::DelayRange));
    assert_eq!(Envelope::with_delay(9, u64::MAX, 0).err(), Some(Malformed::DelayRange));
    let env = Envelope::with_id(7, 9, 500, 500).unwrap();
    assert_eq!((env.id, env.delay_until, env.min_delay, env.max_delay), (7, 9, 500, 500));
    assert_eq!(env.slip.number_remaining_routes(), 0);
    assert!(env.headers.is_empty());
    assert_eq!(env.payload, None);
    let boxed = Envelope::with_delay(3, 0, 10).unwrap();
    assert_eq!((boxed.delay_until, boxed.min_delay, boxed.max_delay), (3, 0, 10));
}

#[test]
fn validation_names_the_defect() {
    let mut env = Envelope::with_id(1, 0, 0, 0).unwrap();
    assert_eq!(env.validate(), Err(Malformed::EmptySlip));
    assert!(!env.can_retract());
    env.slip.add_route(Route::new_msg_route_no_relay(1, 2));
    assert_eq!(env.validate(), Ok(()));
    assert!(env.can_retract());
    env.min_delay = 2;
    env.max_delay = 1;
    assert_eq!(env.validate(), Err(Malformed::DelayRange));
    env.max_delay = 2;
    assert_eq!(env.validate(), Ok(()));
    let _ = env.slip.end_route();
    assert_eq!(env.validate(), Err(Malformed::EmptySlip));
    assert!(!env.can_retract());
    env.min_delay = 3;
    assert_eq!(env.validate(), Err(Malformed::EmptySlip));
}

#[test]
fn headers_and_payload_travel_with_the_envelope() {
    let mut env = Envelope::new();
    env.headers.insert("content-type".to_string(), "text".to_string());
    env.payload = Some("hello".to_string());
    env.slip.add_route(Route::new_msg_route_no_relay(1, 2));
    assert_eq!(env.validate(), Ok(()));
    assert_eq!(env.headers.get("content-type"), Some(&"text".to_string()));
    assert_eq!(env.payload.as_deref(), Some("hello"));
}

#[test]
fn compact_envelope_keeps_sender_receiver_and_message() {
    let env = models::Envelope::new(3, 4, vec![1, 2, 3]);
    assert_eq!((env.from, env.to), (3, 4));
    assert_eq!(env.msg, vec![1, 2, 3]);
    assert_eq!(env.slip.number_remaining_routes(), 0);
    assert!(!env.slip.in_progress());
    let bare = models::Envelope::new_msg_only(vec![9]);
    assert_eq!((bare.from, bare.to), (0, 0));
    assert_eq!(bare.msg, vec![9]);
    assert_eq!(bare.slip.number_remaining_routes(), 0);
}

#[test]
fn compact_route_keeps_service_and_operation() {
    let r = models::Route::new(5, 6);
    assert_eq!((r.service, r.op), (5, 6));
    let mut env = models::Envelope::new_msg_only(Vec::new());
    env.slip.add_route(r);
    env.slip.add_route(models::Route::new(7, 8));
    assert_eq!(env.slip.end_route(), Some(models::Route::new(7, 8)));
    assert_eq!(env.slip.end_route(), Some(models::Route::new(5, 6)));
    assert_eq!(env.slip.end_route(), None);
}

#[test]
fn new_packet_asks_for_no_delay() {
    let inner = models::Envelope::new(1, 2, vec![7, 7]);
    let p = Packet::new(9, 0, 6, "here".to_string(), "there".to_string(), Some(inner));
    assert_eq!((p.id, p.packet_type, p.network_id), (9, 0, 6));
    assert_eq!(p.from_addr, "here");
    assert_eq!(p.to_addr, "there");
    assert_eq!((p.min_delay, p.max_delay), (0, 0));
    assert_eq!(p.envelope.as_ref().map(|e| e.msg.clone()), Some(vec![7, 7]));
    assert_eq!(p.kind(), Some(PacketType::Data));
    assert_eq!(p.network(), Some(NetworkId::TOR));
    let q = Packet::new(1, 4, 9, String::new(), String::new(), None);
    assert!(q.envelope.is_none());
    assert_eq!(q.kind(), Some(PacketType::Syn));
    assert_eq!(q.network(), Some(NetworkId::FSRadio));
    let odd = Packet::new(1, 5, 10, String::new(), String::new(), None);
    assert_eq!(odd.kind(), None);
    assert_eq!(odd.network(), None);
}
