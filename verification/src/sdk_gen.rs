//! Computation of the build-tool invocation that assembles a full SDK: the
//! exact, ordered argument list, including the formatted parallelism bound
//! and property assignments. Spawning the process is the embedding's job;
//! this module only decides what is run.

use vstd::prelude::*;

verus! {

use vstd::string::StringExecFns;

/// Relies on String::push of std: it appends the given character to the end
/// of the string.
pub assume_specification[ std::string::String::push ](s: &mut std::string::String, c: char)
    ensures
        final(s)@ == old(s)@.push(c),
;

/// The character for one decimal digit.
pub open spec fn digit_char(d: nat) -> char {
    if d == 0 {
        '0'
    } else if d == 1 {
        '1'
    } else if d == 2 {
        '2'
    } else if d == 3 {
        '3'
    } else if d == 4 {
        '4'
    } else if d == 5 {
        '5'
    } else if d == 6 {
        '6'
    } else if d == 7 {
        '7'
    } else if d == 8 {
        '8'
    } else {
        '9'
    }
}

/// The decimal rendering of `n`, without leading zeroes (except for zero
/// itself).
pub open spec fn spec_dec(n: nat) -> Seq<char>
    decreases n,
{
    if n < 10 {
        seq![digit_char(n)]
    } else {
        spec_dec(n / 10).push(digit_char(n % 10))
    }
}

fn digit_char_exec(d: u64) -> (c: char)
    requires
        d < 10,
    ensures
        c == digit_char(d as nat),
{
    match d {
        0 => '0',
        1 => '1',
        2 => '2',
        3 => '3',
        4 => '4',
        5 => '5',
        6 => '6',
        7 => '7',
        8 => '8',
        _ => '9',
    }
}

/// Renders `n` in decimal.
pub fn u64_to_dec_string(n: u64) -> (r: String)
    ensures
        r@ == spec_dec(n as nat),
{
    let mut m: u64 = n;
    let mut rev: Vec<char> = Vec::new();
    proof {
        assert(rev@.reverse() =~= Seq::<char>::empty());
    }
    while m >= 10
        invariant
            spec_dec(n as nat) == spec_dec(m as nat) + rev@.reverse(),
        decreases m,
    {
        let d = m % 10;
        let ghost rev0 = rev@;
        rev.push(digit_char_exec(d));
        m = m / 10;
        proof {
            assert(rev@.reverse() =~= seq![digit_char(d as nat)] + rev0.reverse());
            assert(spec_dec(m as nat).push(digit_char(d as nat)) + rev0.reverse()
                =~= spec_dec(m as nat) + rev@.reverse());
        }
    }
    let ghost rev0 = rev@;
    rev.push(digit_char_exec(m));
    proof {
        assert(rev@.reverse() =~= seq![digit_char(m as nat)] + rev0.reverse());
        assert(spec_dec(n as nat) == rev@.reverse());
    }
    let mut out = String::new();
    let mut j: usize = rev.len();
    proof {
        assert(out@ =~= rev@.reverse().take(0));
    }
    while j > 0
        invariant
            j <= rev@.len(),
            out@ == rev@.reverse().take(rev@.len() - j),
        decreases j,
    {
        j -= 1;
        out.push(rev[j]);
        proof {
            assert(rev@.reverse()[rev@.len() - j - 1] == rev@[j as int]);
            assert(out@ =~= rev@.reverse().take(rev@.len() - j));
        }
    }
    proof {
        assert(rev@.reverse().take(rev@.len() as int) =~= rev@.reverse());
    }
    out
}

/// The ordered argument list for assembling the full SDK: a foreground,
/// serial, verbose build with fixed JVM arguments, codegen parallelism
/// capped at `smithy_parallelism`, and the manifest and examples-revision
/// properties set.
pub fn aws_sdk_assemble_args(
    smithy_parallelism: usize,
    previous_versions_manifest: &str,
    examples_revision: &str,
) -> (r: Vec<String>)
    ensures
        r.deep_view().len() == 9,
        r.deep_view()[0] == "--no-daemon"@,
        r.deep_view()[1] == "--no-parallel"@,
        r.deep_view()[2] == "--max-workers=1"@,
        r.deep_view()[3] == "--info"@,
        r.deep_view()[4]
            == "-Dorg.gradle.jvmargs=-Xmx512m -XX:MaxMetaspaceSize=256m -Dkotlin.incremental=false -Dkotlin.caching.enabled=false -Dkotlin.compiler.execution.strategy=in-process"@,
        r.deep_view()[5] == "-Djava.util.concurrent.ForkJoinPool.common.parallelism="@ + spec_dec(
            smithy_parallelism as nat,
        ),
        r.deep_view()[6] == "-Paws.fullsdk=true"@,
        r.deep_view()[7] == "-Paws.sdk.previous.release.versions.manifest="@
            + previous_versions_manifest@,
        r.deep_view()[8] == "-Paws.sdk.examples.revision="@ + examples_revision@,
{
    let mut args: Vec<String> = Vec::new();
    args.push(String::from_str("--no-daemon"));
    args.push(String::from_str("--no-parallel"));
    args.push(String::from_str("--max-workers=1"));
    args.push(String::from_str("--info"));
    args.push(
        String::from_str(
            "-Dorg.gradle.jvmargs=-Xmx512m -XX:MaxMetaspaceSize=256m -Dkotlin.incremental=false -Dkotlin.caching.enabled=false -Dkotlin.compiler.execution.strategy=in-process",
        ),
    );
    let parallelism = u64_to_dec_string(smithy_parallelism as u64);
    args.push(
        String::from_str("-Djava.util.concurrent.ForkJoinPool.common.parallelism=").concat(
            parallelism.as_str(),
        ),
    );
    args.push(String::from_str("-Paws.fullsdk=true"));
    args.push(
        String::from_str("-Paws.sdk.previous.release.versions.manifest=").concat(
            previous_versions_manifest,
        ),
    );
    args.push(String::from_str("-Paws.sdk.examples.revision=").concat(examples_revision));
    args
}

} // verus!
