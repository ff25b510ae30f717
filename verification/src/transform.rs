//! The metric-name transformer: a pure, total rewriting of a sensor
//! identifier into a dot-delimited metric name, with an optional global
//! prefix, and the laws the rewrite rules obey.

use vstd::prelude::*;
use crate::text::{replace_chars, replace_seq, starts_with, str_eq, str_starts_with};

verus! {

/// The rewritten form of a sensor identifier, first matching rule wins:
/// an identifier with the `"temperature_"` prefix keeps its grouping and
/// only trades `_` for `.`; the identifier `"water_level"` maps to a
/// fixed historical alias; every other identifier has first `-`, then
/// `_`, rewritten to `.`.
pub open spec fn transformed(s: Seq<char>) -> Seq<char> {
    if starts_with(s, "temperature_"@) {
        replace_seq(s, '_', '.')
    } else if s == "water_level"@ {
        "water_level.water_level"@
    } else {
        replace_seq(replace_seq(s, '-', '.'), '_', '.')
    }
}

/// `name` prefixed with `prefix` and a joining dot, when a prefix is
/// configured; `name` alone otherwise.
pub open spec fn with_prefix(prefix: Option<Seq<char>>, name: Seq<char>) -> Seq<char> {
    match prefix {
        Some(p) => p + "."@ + name,
        None => name,
    }
}

/// The view of an optional owned string.
pub open spec fn opt_string_view(p: Option<String>) -> Option<Seq<char>> {
    match p {
        Some(s) => Some(s@),
        None => None,
    }
}

/// Rewrites a sensor identifier (its category tag already stripped) into
/// the dot-delimited metric name.
pub fn rewrite_sensor_name(name: &str) -> (r: String)
    ensures
        r@ == transformed(name@),
{
    if str_starts_with(name, "temperature_") {
        replace_chars(name, '_', '.')
    } else if str_eq(name, "water_level") {
        "water_level.water_level".to_owned()
    } else {
        let dashed = replace_chars(name, '-', '.');
        replace_chars(dashed.as_str(), '_', '.')
    }
}

/// Builds the final metric name from the optional configured prefix and
/// the rewritten sensor identifier.
pub fn full_metric_name(prefix: &Option<String>, sensor_name: &str) -> (r: String)
    ensures
        r@ == with_prefix(opt_string_view(*prefix), transformed(sensor_name@)),
{
    let rewritten = rewrite_sensor_name(sensor_name);
    match prefix {
        Some(p) => {
            let mut out = p.as_str().to_owned();
            out.append(".");
            out.append(rewritten.as_str());
            proof {
                assert(out@ =~= p@ + "."@ + rewritten@);
            }
            out
        },
        None => rewritten,
    }
}

/// Law: for every identifier that starts with `"temperature_"`, the
/// rewritten name is the identifier with each `_` replaced by `.`, and
/// it contains no `_` at all.
pub proof fn lemma_temperature_rewrite(s: Seq<char>)
    requires
        starts_with(s, "temperature_"@),
    ensures
        transformed(s) == replace_seq(s, '_', '.'),
        transformed(s).len() == s.len(),
        forall|i: int| 0 <= i < transformed(s).len() ==> transformed(s)[i] != '_',
{
    assert forall|i: int| 0 <= i < transformed(s).len() implies transformed(s)[i] != '_' by {
        assert(transformed(s)[i] == (if s[i] == '_' { '.' } else { s[i] }));
    }
}

/// Law: the identifier `"water_level"` rewrites to the fixed alias
/// `"water_level.water_level"`, whatever the other rules would give.
pub proof fn lemma_water_level_alias()
    ensures
        transformed("water_level"@) == "water_level.water_level"@,
{
    reveal_strlit("water_level");
    reveal_strlit("temperature_");
    assert(!starts_with("water_level"@, "temperature_"@));
}

/// Law: for every identifier that neither starts with `"temperature_"`
/// nor equals `"water_level"`, the rewritten name contains neither `-`
/// nor `_`.
pub proof fn lemma_other_rewrite(s: Seq<char>)
    requires
        !starts_with(s, "temperature_"@),
        s != "water_level"@,
    ensures
        transformed(s).len() == s.len(),
        forall|i: int| 0 <= i < transformed(s).len()
            ==> transformed(s)[i] != '_' && transformed(s)[i] != '-',
{
    let dashed = replace_seq(s, '-', '.');
    assert forall|i: int| 0 <= i < transformed(s).len()
        implies transformed(s)[i] != '_' && transformed(s)[i] != '-' by {
        assert(dashed[i] == (if s[i] == '-' { '.' } else { s[i] }));
        assert(transformed(s)[i] == (if dashed[i] == '_' { '.' } else { dashed[i] }));
    }
}

} // verus!
