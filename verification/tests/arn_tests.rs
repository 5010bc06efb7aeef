use smithy_core::arn::{parse_arn, Arn};

#[test]
fn arn_parser() {
    let arn = "arn:aws:s3:us-east-2:012345678:outpost:op-1234";
    let parsed = Arn::parse(arn).expect("valid ARN");
    assert_eq!(
        parsed,
        Arn {
            partition: "aws",
            service: "s3",
            region: "us-east-2",
            account_id: "012345678",
            resource_id: vec!["outpost", "op-1234"]
        }
    );
}

#[test]
fn arn_getters_return_fields() {
    let parsed = Arn::parse("arn:aws:s3:us-east-2:012345678:outpost:op-1234").expect("valid ARN");
    assert_eq!(parsed.partition(), "aws");
    assert_eq!(parsed.service(), "s3");
    assert_eq!(parsed.region(), "us-east-2");
    assert_eq!(parsed.account_id(), "012345678");
    assert_eq!(parsed.resource_id(), &vec!["outpost", "op-1234"]);
}

#[test]
fn arn_too_few_fields_is_absent() {
    assert!(Arn::parse("arn:aws:s3").is_none());
    assert!(parse_arn("arn:aws:s3").is_none());
}

#[test]
fn arn_exactly_six_fields() {
    let parsed = parse_arn("arn:aws:s3:us-east-1::bucket").expect("valid ARN");
    assert_eq!(parsed.partition(), "aws");
    assert_eq!(parsed.account_id(), "");
    assert_eq!(parsed.resource_id(), &vec!["bucket"]);
}

#[test]
fn arn_empty_fields_are_permitted() {
    let parsed = parse_arn("arn:::::").expect("six empty fields");
    assert_eq!(parsed.partition(), "");
    assert_eq!(parsed.service(), "");
    assert_eq!(parsed.region(), "");
    assert_eq!(parsed.account_id(), "");
    assert_eq!(parsed.resource_id(), &vec![""]);
}

#[test]
fn arn_resource_keeps_embedded_colons_as_parts() {
    let parsed = parse_arn("arn:aws:sns:us-east-1:123:topic:a:b:c").expect("valid ARN");
    assert_eq!(parsed.resource_id(), &vec!["topic", "a", "b", "c"]);
}
