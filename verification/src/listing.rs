use vstd::prelude::*;
use vstd::string::{StrSliceExecFns, StringExecFns};
use crate::json::JsonValue;
use crate::seqtools::{lemma_filter_map_push, spec_filter_map};
use crate::text::{ends_with_str, spec_ends_with, spec_lines, spec_trim, split_lines, str_eq, trim};

verus! {

/// The metadata stem a directory entry contributes: its name without the
/// `.json` ending, for entries that end in one.
pub open spec fn spec_json_stem(name: Seq<char>) -> Option<Seq<char>> {
    if spec_ends_with(name, ".json"@) && name.len() > ".json"@.len() {
        Some(name.take(name.len() - ".json"@.len()))
    } else {
        None
    }
}

/// The stem reading as one function value, shared by specs and proofs.
pub open spec fn json_stem_fn() -> spec_fn(Seq<char>) -> Option<Seq<char>> {
    |n: Seq<char>| spec_json_stem(n)
}

/// The stems of the `.json` entries among `names`, in order — how the
/// metadata listings read a directory's file names.
pub fn json_stems(names: &Vec<String>) -> (r: Vec<String>)
    ensures
        r.deep_view() == spec_filter_map(names.deep_view(), json_stem_fn()),
{
    let ghost ndv = names.deep_view();
    let mut out: Vec<String> = Vec::new();
    let n = names.len();
    let mut i: usize = 0;
    proof {
        assert(ndv.take(0) =~= Seq::<Seq<char>>::empty());
    }
    while i < n
        invariant
            n == names@.len(),
            ndv == names.deep_view(),
            i <= n,
            out.deep_view() == spec_filter_map(ndv.take(i as int), json_stem_fn()),
        decreases n - i,
    {
        let name = &names[i];
        proof {
            assert(name@ == ndv[i as int]);
            lemma_filter_map_push(ndv.take(i as int), ndv[i as int], json_stem_fn());
            assert(ndv.take(i + 1) =~= ndv.take(i as int).push(ndv[i as int]));
        }
        let plen = ".json".unicode_len();
        let nlen = name.as_str().unicode_len();
        if ends_with_str(name.as_str(), ".json") && nlen > plen {
            let stem = name.as_str().substring_char(0, nlen - plen);
            out.push(String::from_str(stem));
            proof {
                assert(out.deep_view() =~= spec_filter_map(ndv.take(i + 1), json_stem_fn()));
            }
        } else {
            proof {
                assert(out.deep_view() =~= spec_filter_map(ndv.take(i + 1), json_stem_fn()));
            }
        }
        i += 1;
    }
    proof {
        assert(ndv.take(n as int) =~= ndv);
    }
    out
}

/// The vhost listing keeps every config name but the server's own
/// `default` entry.
pub open spec fn spec_vhost_name(name: Seq<char>) -> Option<Seq<char>> {
    if name != "default"@ {
        Some(name)
    } else {
        None
    }
}

/// The name filter as one function value, shared by specs and proofs.
pub open spec fn vhost_name_fn() -> spec_fn(Seq<char>) -> Option<Seq<char>> {
    |n: Seq<char>| spec_vhost_name(n)
}

/// The provisioned domains among the config directory's entries.
pub fn vhost_domains(names: &Vec<String>) -> (r: Vec<String>)
    ensures
        r.deep_view() == spec_filter_map(names.deep_view(), vhost_name_fn()),
{
    let ghost ndv = names.deep_view();
    let mut out: Vec<String> = Vec::new();
    let n = names.len();
    let mut i: usize = 0;
    proof {
        assert(ndv.take(0) =~= Seq::<Seq<char>>::empty());
    }
    while i < n
        invariant
            n == names@.len(),
            ndv == names.deep_view(),
            i <= n,
            out.deep_view() == spec_filter_map(ndv.take(i as int), vhost_name_fn()),
        decreases n - i,
    {
        let name = &names[i];
        proof {
            assert(name@ == ndv[i as int]);
            lemma_filter_map_push(ndv.take(i as int), ndv[i as int], vhost_name_fn());
            assert(ndv.take(i + 1) =~= ndv.take(i as int).push(ndv[i as int]));
        }
        if !str_eq(name.as_str(), "default") {
            out.push(name.clone());
            proof {
                assert(out.deep_view() =~= spec_filter_map(ndv.take(i + 1), vhost_name_fn()));
            }
        } else {
            proof {
                assert(out.deep_view() =~= spec_filter_map(ndv.take(i + 1), vhost_name_fn()));
            }
        }
        i += 1;
    }
    proof {
        assert(ndv.take(n as int) =~= ndv);
    }
    out
}

/// The cron listing keeps every stored line with visible content.
pub open spec fn spec_cron_line(line: Seq<char>) -> Option<Seq<char>> {
    if spec_trim(line).len() > 0 {
        Some(line)
    } else {
        None
    }
}

/// The line filter as one function value, shared by specs and proofs.
pub open spec fn cron_line_fn() -> spec_fn(Seq<char>) -> Option<Seq<char>> {
    |l: Seq<char>| spec_cron_line(l)
}

/// The stored cron lines of one account's file, blank lines dropped.
pub fn cron_job_lines(content: &str) -> (r: Vec<String>)
    ensures
        r.deep_view() == spec_filter_map(spec_lines(content@), cron_line_fn()),
{
    let lines = split_lines(content);
    let ghost ldv = lines.deep_view();
    let mut out: Vec<String> = Vec::new();
    let n = lines.len();
    let mut i: usize = 0;
    proof {
        assert(ldv.take(0) =~= Seq::<Seq<char>>::empty());
    }
    while i < n
        invariant
            n == lines@.len(),
            ldv == lines.deep_view(),
            i <= n,
            out.deep_view() == spec_filter_map(ldv.take(i as int), cron_line_fn()),
        decreases n - i,
    {
        let line = &lines[i];
        proof {
            assert(line@ == ldv[i as int]);
            lemma_filter_map_push(ldv.take(i as int), ldv[i as int], cron_line_fn());
            assert(ldv.take(i + 1) =~= ldv.take(i as int).push(ldv[i as int]));
        }
        if !trim(line.as_str()).is_empty() {
            out.push(line.clone());
            proof {
                assert(out.deep_view() =~= spec_filter_map(ldv.take(i + 1), cron_line_fn()));
            }
        } else {
            proof {
                assert(out.deep_view() =~= spec_filter_map(ldv.take(i + 1), cron_line_fn()));
            }
        }
        i += 1;
    }
    proof {
        assert(ldv.take(n as int) =~= ldv);
    }
    out
}

/// The wire array carrying each of the given strings, in order.
pub fn strings_to_json_array(items: &Vec<String>) -> (r: JsonValue)
    ensures
        r matches JsonValue::Arr(vs) && vs@.len() == items@.len() && forall|i: int|
            0 <= i < items@.len() ==> ((#[trigger] vs@[i]) matches JsonValue::Str(s) && s@
                == items.deep_view()[i]),
{
    let mut vs: Vec<JsonValue> = Vec::new();
    let n = items.len();
    let mut i: usize = 0;
    while i < n
        invariant
            n == items@.len(),
            i <= n,
            vs@.len() == i,
            forall|k: int|
                0 <= k < i ==> ((#[trigger] vs@[k]) matches JsonValue::Str(s) && s@
                    == items.deep_view()[k]),
        decreases n - i,
    {
        vs.push(JsonValue::Str(items[i].clone()));
        i += 1;
    }
    JsonValue::Arr(vs)
}

} // verus!
