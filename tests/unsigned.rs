use ruma_event_content::knock::{Request, Response};
use ruma_event_content::unsigned::{
    RedactedUnsigned, RedactedUnsignedWithPrevContent, Unsigned, UnsignedWithPrevContent,
};

#[test]
fn unsigned_new_is_empty() {
    let u = Unsigned::new();
    assert!(u.is_empty());
    let u = Unsigned { age: Some(-3), transaction_id: None };
    assert!(!u.is_empty());
    let u = Unsigned { age: None, transaction_id: Some("t".to_string()) };
    assert!(!u.is_empty());
}

#[test]
fn redacted_unsigned() {
    let u: RedactedUnsigned<u32> = RedactedUnsigned::new();
    assert!(u.is_empty());
    let u = RedactedUnsigned::new_because(Box::new(5u32));
    assert!(!u.is_empty());
    assert_eq!(*u.redacted_because.unwrap(), 5);
}

#[test]
fn unsigned_from_prev_content() {
    let w = UnsignedWithPrevContent {
        age: Some(12),
        transaction_id: Some("tx".to_string()),
        prev_content: Some("{}".to_string()),
    };
    let u = Unsigned::from(w);
    assert_eq!(u.age, Some(12));
    assert_eq!(u.transaction_id.as_deref(), Some("tx"));
    let w = RedactedUnsignedWithPrevContent { redacted_because: Some(Box::new(1u8)), prev_content: None };
    let r: RedactedUnsigned<u8> = w.into();
    assert!(!r.is_empty());
}

#[test]
fn knock_request_response() {
    let ev = 7u32;
    let req = Request::new("!r:h", "$e:h", &ev);
    assert_eq!(req.room_id, "!r:h");
    assert_eq!(req.event_id, "$e:h");
    assert_eq!(*req.knock_event, 7);
    let resp = Response::new(vec![1, 2]);
    assert_eq!(resp.knock_room_state, vec![1, 2]);
}
