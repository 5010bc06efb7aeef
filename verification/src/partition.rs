//! Region-to-partition classification over a fixed catalog of partition
//! metadata. Classification is ordered, first match wins; the chosen partition
//! name is then looked up in the catalog, and a failed lookup resolves to
//! nothing.
//!
//! Note: the classifier maps `us-isob-` regions to the name `"aws-iso-b "`
//! (with a trailing space), which matches no catalog entry, so such regions
//! never resolve.

use vstd::prelude::*;

verus! {

use crate::strutil::{count_char, spec_starts_with, str_count_char, str_eq, str_starts_with};

/// A named grouping of regions sharing DNS suffixes and capability flags.
#[derive(Debug, Clone, Copy)]
pub struct Partition {
    pub name: &'static str,
    pub dns_suffix: &'static str,
    pub dual_stack_dns_suffix: &'static str,
    pub supports_fips: bool,
    pub supports_dual_stack: bool,
    pub inferred: bool,
}

/// The mathematical content of a [`Partition`] value.
pub ghost struct PartitionData {
    pub name: Seq<char>,
    pub dns_suffix: Seq<char>,
    pub dual_stack_dns_suffix: Seq<char>,
    pub supports_fips: bool,
    pub supports_dual_stack: bool,
    pub inferred: bool,
}

impl View for Partition {
    type V = PartitionData;

    open spec fn view(&self) -> PartitionData {
        PartitionData {
            name: self.name@,
            dns_suffix: self.dns_suffix@,
            dual_stack_dns_suffix: self.dual_stack_dns_suffix@,
            supports_fips: self.supports_fips,
            supports_dual_stack: self.supports_dual_stack,
            inferred: self.inferred,
        }
    }
}

impl Partition {
    pub fn name(&self) -> (r: &'static str)
        ensures
            r@ == self@.name,
    {
        self.name
    }

    pub fn dns_suffix(&self) -> (r: &'static str)
        ensures
            r@ == self@.dns_suffix,
    {
        self.dns_suffix
    }

    pub fn dual_stack_dns_suffix(&self) -> (r: &'static str)
        ensures
            r@ == self@.dual_stack_dns_suffix,
    {
        self.dual_stack_dns_suffix
    }

    pub fn supports_fips(&self) -> (r: bool)
        ensures
            r == self@.supports_fips,
    {
        self.supports_fips
    }

    pub fn supports_dual_stack(&self) -> (r: bool)
        ensures
            r == self@.supports_dual_stack,
    {
        self.supports_dual_stack
    }

    pub fn inferred(&self) -> (r: bool)
        ensures
            r == self@.inferred,
    {
        self.inferred
    }
}

/// A region string belongs to the primary partition explicitly when it opens
/// with a known area prefix and holds exactly two dashes.
pub open spec fn spec_aws_explicit(region: Seq<char>) -> bool {
    &&& {
        ||| spec_starts_with(region, "us"@)
        ||| spec_starts_with(region, "eu"@)
        ||| spec_starts_with(region, "ap"@)
        ||| spec_starts_with(region, "sa"@)
        ||| spec_starts_with(region, "ca"@)
        ||| spec_starts_with(region, "me"@)
        ||| spec_starts_with(region, "af"@)
    }
    &&& count_char(region, '-') == 2
}

/// Ordered, first-match classification of a region string into a partition
/// name plus the flag that says the primary partition was chosen as a
/// best-effort fallback rather than by an explicit match.
pub open spec fn spec_map_partition(region: Seq<char>) -> (Seq<char>, bool) {
    if spec_starts_with(region, "cn-"@) {
        ("aws-cn"@, false)
    } else if spec_starts_with(region, "us-gov-"@) {
        ("aws-us-gov"@, false)
    } else if spec_starts_with(region, "us-isob-"@) {
        ("aws-iso-b "@, false)
    } else if spec_starts_with(region, "us-iso-"@) {
        ("aws-iso"@, false)
    } else if spec_aws_explicit(region) {
        ("aws"@, false)
    } else {
        ("aws"@, true)
    }
}

pub fn map_partition(region: &str) -> (r: (&'static str, bool))
    ensures
        (r.0@, r.1) == spec_map_partition(region@),
{
    let cn = str_starts_with(region, "cn-");
    let us_gov = str_starts_with(region, "us-gov-");
    let us_iso = str_starts_with(region, "us-iso-");
    let us_isob = str_starts_with(region, "us-isob-");
    let aws_explicit = (str_starts_with(region, "us") || str_starts_with(region, "eu")
        || str_starts_with(region, "ap") || str_starts_with(region, "sa") || str_starts_with(
        region,
        "ca",
    ) || str_starts_with(region, "me") || str_starts_with(region, "af")) && str_count_char(
        region,
        '-',
    ) == 2;
    if cn {
        ("aws-cn", false)
    } else if us_gov {
        ("aws-us-gov", false)
    } else if us_isob {
        ("aws-iso-b ", false)
    } else if us_iso {
        ("aws-iso", false)
    } else if aws_explicit {
        ("aws", false)
    } else {
        ("aws", true)
    }
}

/// What resolving a region yields: the catalog entry named by the classifier,
/// carrying the classifier's `inferred` flag, or nothing when no entry bears
/// that name.
pub open spec fn spec_resolve(region: Seq<char>) -> Option<PartitionData> {
    let (key, inferred) = spec_map_partition(region);
    if key == "aws"@ {
        Some(
            PartitionData {
                name: "aws"@,
                dns_suffix: "amazonaws.com"@,
                dual_stack_dns_suffix: "api.aws"@,
                supports_fips: true,
                supports_dual_stack: true,
                inferred,
            },
        )
    } else if key == "aws-cn"@ {
        Some(
            PartitionData {
                name: "aws-cn"@,
                dns_suffix: "amazonaws.com.cn"@,
                dual_stack_dns_suffix: "cndod"@,
                supports_fips: false,
                supports_dual_stack: true,
                inferred,
            },
        )
    } else if key == "aws-iso"@ {
        Some(
            PartitionData {
                name: "aws-iso"@,
                dns_suffix: "c2s.ic.gov"@,
                dual_stack_dns_suffix: "cn-todo"@,
                supports_fips: true,
                supports_dual_stack: false,
                inferred,
            },
        )
    } else if key == "aws-iso-b"@ {
        Some(
            PartitionData {
                name: "aws-iso-b"@,
                dns_suffix: "sc2s.sgov.gov"@,
                dual_stack_dns_suffix: "cn-todo"@,
                supports_fips: true,
                supports_dual_stack: false,
                inferred,
            },
        )
    } else if key == "aws-us-gov"@ {
        Some(
            PartitionData {
                name: "aws-us-gov"@,
                dns_suffix: "amazonaws.com"@,
                dual_stack_dns_suffix: "cn-todo"@,
                supports_fips: true,
                supports_dual_stack: true,
                inferred,
            },
        )
    } else {
        None
    }
}

/// Resolves a region string against the fixed catalog.
pub fn partition(region: &str) -> (r: Option<Partition>)
    ensures
        r.deep_view() == spec_resolve(region@),
{
    PartitionTable::new().eval(region)
}

impl DeepView for Partition {
    type V = PartitionData;

    open spec fn deep_view(&self) -> PartitionData {
        self.view()
    }
}

/// The fixed, immutable catalog of partition metadata.
pub struct PartitionTable {
    pub partitions: Vec<Partition>,
}

/// One row of the catalog has exactly these fields, with `inferred` unset.
pub open spec fn catalog_entry(
    p: Partition,
    name: Seq<char>,
    dns_suffix: Seq<char>,
    dual_stack_dns_suffix: Seq<char>,
    supports_fips: bool,
    supports_dual_stack: bool,
) -> bool {
    &&& p@.name == name
    &&& p@.dns_suffix == dns_suffix
    &&& p@.dual_stack_dns_suffix == dual_stack_dns_suffix
    &&& p@.supports_fips == supports_fips
    &&& p@.supports_dual_stack == supports_dual_stack
    &&& p@.inferred == false
}

impl PartitionTable {
    /// The five named catalog rows, in a fixed order.
    pub open spec fn wf(&self) -> bool {
        &&& self.partitions@.len() == 5
        &&& catalog_entry(
            self.partitions@[0],
            "aws"@,
            "amazonaws.com"@,
            "api.aws"@,
            true,
            true,
        )
        &&& catalog_entry(
            self.partitions@[1],
            "aws-cn"@,
            "amazonaws.com.cn"@,
            "cndod"@,
            false,
            true,
        )
        &&& catalog_entry(
            self.partitions@[2],
            "aws-iso"@,
            "c2s.ic.gov"@,
            "cn-todo"@,
            true,
            false,
        )
        &&& catalog_entry(
            self.partitions@[3],
            "aws-iso-b"@,
            "sc2s.sgov.gov"@,
            "cn-todo"@,
            true,
            false,
        )
        &&& catalog_entry(
            self.partitions@[4],
            "aws-us-gov"@,
            "amazonaws.com"@,
            "cn-todo"@,
            true,
            true,
        )
    }

    /// Builds the catalog once; it is never mutated afterwards.
    pub fn new() -> (r: Self)
        ensures
            r.wf(),
    {
        let mut partitions: Vec<Partition> = Vec::new();
        partitions.push(
            Partition {
                name: "aws",
                dns_suffix: "amazonaws.com",
                dual_stack_dns_suffix: "api.aws",
                supports_fips: true,
                supports_dual_stack: true,
                inferred: false,
            },
        );
        partitions.push(
            Partition {
                name: "aws-cn",
                dns_suffix: "amazonaws.com.cn",
                dual_stack_dns_suffix: "cndod",
                supports_fips: false,
                supports_dual_stack: true,
                inferred: false,
            },
        );
        partitions.push(
            Partition {
                name: "aws-iso",
                dns_suffix: "c2s.ic.gov",
                dual_stack_dns_suffix: "cn-todo",
                supports_fips: true,
                supports_dual_stack: false,
                inferred: false,
            },
        );
        partitions.push(
            Partition {
                name: "aws-iso-b",
                dns_suffix: "sc2s.sgov.gov",
                dual_stack_dns_suffix: "cn-todo",
                supports_fips: true,
                supports_dual_stack: false,
                inferred: false,
            },
        );
        partitions.push(
            Partition {
                name: "aws-us-gov",
                dns_suffix: "amazonaws.com",
                dual_stack_dns_suffix: "cn-todo",
                supports_fips: true,
                supports_dual_stack: true,
                inferred: false,
            },
        );
        PartitionTable { partitions }
    }

    /// Classifies `region` and looks the chosen name up in the catalog; the
    /// returned entry carries the classifier's `inferred` flag.
    pub fn eval(&self, region: &str) -> (r: Option<Partition>)
        requires
            self.wf(),
        ensures
            r.deep_view() == spec_resolve(region@),
    {
        let (key, inferred) = map_partition(region);
        let mut i: usize = 0;
        while i < self.partitions.len()
            invariant
                self.wf(),
                i <= self.partitions@.len(),
                key@ == spec_map_partition(region@).0,
                inferred == spec_map_partition(region@).1,
                forall|j: int| 0 <= j < i ==> self.partitions@[j]@.name != key@,
            decreases self.partitions.len() - i,
        {
            let p = &self.partitions[i];
            if str_eq(p.name, key) {
                return Some(
                    Partition {
                        name: p.name,
                        dns_suffix: p.dns_suffix,
                        dual_stack_dns_suffix: p.dual_stack_dns_suffix,
                        supports_fips: p.supports_fips,
                        supports_dual_stack: p.supports_dual_stack,
                        inferred,
                    },
                );
            }
            i += 1;
        }
        None
    }
}

} // verus!
