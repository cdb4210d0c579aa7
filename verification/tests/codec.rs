use bulletin::entity::{CallbackResponse, Target};

fn round_trip(v: CallbackResponse) {
    let text = v.to_msg_text().expect("the callback must fit the ceiling");
    assert!(text.len() <= 64, "payload {:?} is over the platform ceiling", text);
    let back = CallbackResponse::from_mst_text(text.as_str()).expect("must decode");
    assert_eq!(back, v);
}

#[test]
fn every_variant_round_trips() {
    round_trip(CallbackResponse::Yes);
    round_trip(CallbackResponse::No);
    round_trip(CallbackResponse::Target(Target::Buy));
    round_trip(CallbackResponse::Target(Target::Sell));
    round_trip(CallbackResponse::Target(Target::Ask));
    round_trip(CallbackResponse::Target(Target::Recommend));
    round_trip(CallbackResponse::User(0));
    round_trip(CallbackResponse::User(u64::MAX));
    round_trip(CallbackResponse::Remove(vec![]));
    round_trip(CallbackResponse::Remove(vec![1, -2, i32::MAX, i32::MIN, 0]));
    round_trip(CallbackResponse::AdminToRemove(777000));
    round_trip(CallbackResponse::AddTag("мебель".to_string(), 42));
    round_trip(CallbackResponse::RemoveTag("bikes".to_string(), -42));
    round_trip(CallbackResponse::ApproveSubscribe(5, -1001234567890));
    round_trip(CallbackResponse::DeclineSubscribe(5));
    round_trip(CallbackResponse::BanSubscribe(5));
}

#[test]
fn payloads_use_the_printable_alphabet() {
    let text = CallbackResponse::Yes.to_msg_text().unwrap();
    assert!(!text.is_empty());
    assert!(text.chars().all(|c| c.is_ascii_graphic()));
    let text = CallbackResponse::Remove(vec![0, 1, 2]).to_msg_text().unwrap();
    assert!(text.chars().all(|c| c.is_ascii_graphic()));
}

#[test]
fn oversized_payloads_are_refused_not_truncated() {
    let too_many = CallbackResponse::Remove((0..11).collect());
    assert!(too_many.to_msg_text().is_none());
    let long_tag = CallbackResponse::AddTag("x".repeat(46), 1);
    assert!(long_tag.to_msg_text().is_none());
    let ten = CallbackResponse::Remove((0..10).collect());
    assert!(ten.to_msg_text().is_some());
}

#[test]
fn malformed_payloads_decode_to_nothing() {
    assert!(CallbackResponse::from_mst_text("").is_none());
    assert!(CallbackResponse::from_mst_text("~~~~zzzz####").is_none());
    let mut text = CallbackResponse::User(5).to_msg_text().unwrap();
    text.push('A');
    assert!(CallbackResponse::from_mst_text(text.as_str()).is_none());
}

#[test]
fn byte_level_codec_is_exact() {
    let v = CallbackResponse::AddTag("мебель".to_string(), 7);
    let bytes = v.to_bytes().unwrap();
    let back = CallbackResponse::from_bytes(&bytes).unwrap();
    assert_eq!(back, v);
    let mut cut = bytes.clone();
    cut.pop();
    assert!(CallbackResponse::from_bytes(&cut).is_none());
    let mut extended = bytes.clone();
    extended.push(0);
    assert!(CallbackResponse::from_bytes(&extended).is_none());
    assert!(CallbackResponse::from_bytes(&vec![99u8]).is_none());
}
