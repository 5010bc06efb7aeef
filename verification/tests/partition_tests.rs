use smithy_core::partition::{map_partition, partition, PartitionTable};

#[test]
fn classify_cn_region() {
    let p = partition("cn-north-1").expect("resolves");
    assert_eq!(p.name(), "aws-cn");
    assert_eq!(p.dns_suffix(), "amazonaws.com.cn");
    assert!(!p.supports_fips());
    assert!(p.supports_dual_stack());
    assert!(!p.inferred());
}

#[test]
fn classify_gov_region() {
    let p = partition("us-gov-west-1").expect("resolves");
    assert_eq!(p.name(), "aws-us-gov");
    assert_eq!(p.dns_suffix(), "amazonaws.com");
    assert!(p.supports_fips());
    assert!(p.supports_dual_stack());
}

#[test]
fn classify_iso_region() {
    let p = partition("us-iso-east-1").expect("resolves");
    assert_eq!(p.name(), "aws-iso");
    assert_eq!(p.dns_suffix(), "c2s.ic.gov");
    assert!(p.supports_fips());
    assert!(!p.supports_dual_stack());
}

#[test]
fn classify_explicit_primary_region() {
    let p = partition("us-east-1").expect("resolves");
    assert_eq!(p.name(), "aws");
    assert_eq!(p.dns_suffix(), "amazonaws.com");
    assert_eq!(p.dual_stack_dns_suffix(), "api.aws");
    assert!(p.supports_fips());
    assert!(p.supports_dual_stack());
    assert!(!p.inferred());
}

#[test]
fn classify_unknown_region_is_inferred() {
    let p = partition("xx-east-1").expect("resolves");
    assert_eq!(p.name(), "aws");
    assert!(p.inferred());
}

#[test]
fn classify_isob_region_does_not_resolve() {
    // The classifier's key for the iso-b partition carries a trailing space,
    // so no catalog entry matches it.
    assert_eq!(map_partition("us-isob-east-1").0, "aws-iso-b ");
    assert!(partition("us-isob-east-1").is_none());
}

#[test]
fn map_partition_ordered_first_match() {
    assert_eq!(map_partition("cn-north-1"), ("aws-cn", false));
    assert_eq!(map_partition("us-gov-west-1"), ("aws-us-gov", false));
    assert_eq!(map_partition("us-iso-east-1"), ("aws-iso", false));
    assert_eq!(map_partition("us-east-1"), ("aws", false));
    assert_eq!(map_partition("xx-east-1"), ("aws", true));
    // an area prefix with the wrong number of dashes falls through
    assert_eq!(map_partition("us-east"), ("aws", true));
    assert_eq!(map_partition("eu-west-north-1"), ("aws", true));
}

#[test]
fn table_eval_carries_inferred_flag() {
    let table = PartitionTable::new();
    assert!(table.eval("ap-southeast-2").expect("resolves").inferred() == false);
    assert!(table.eval("zz-north-9").expect("resolves").inferred());
}
