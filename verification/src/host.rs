//! Target hosts: parsing `host` / `host:port` specifications, and building
//! the deduplicated, sorted execution list.
use vstd::prelude::*;

use crate::errors::SetupError;
use crate::text::{
    find_char, find_char_from, parse_u64, parses_as_u64, dec_val, numeric_body, spec_trim,
    str_eq, trim_str,
};

verus! {

/// Canonical identity of a target machine: hostname and port, exactly as
/// parsed, with no name-service normalization.
#[derive(Debug, Clone)]
pub struct SshHost {
    pub hostname: String,
    pub port: u16,
}

impl View for SshHost {
    type V = (Seq<char>, u16);

    open spec fn view(&self) -> (Seq<char>, u16) {
        (self.hostname@, self.port)
    }
}

// ---------------------------------------------------------------------------
// The order on hosts: lexicographic by hostname, then by port
// ---------------------------------------------------------------------------

/// Lexicographic order on character sequences, by code point.
pub open spec fn lex_lt(a: Seq<char>, b: Seq<char>) -> bool
    decreases a.len(),
{
    if b.len() == 0 {
        false
    } else if a.len() == 0 {
        true
    } else if a[0] != b[0] {
        (a[0] as u32) < (b[0] as u32)
    } else {
        lex_lt(a.skip(1), b.skip(1))
    }
}

/// The strict order used for the execution list: hostname first, port second.
pub open spec fn host_lt(a: (Seq<char>, u16), b: (Seq<char>, u16)) -> bool {
    lex_lt(a.0, b.0) || (a.0 == b.0 && a.1 < b.1)
}

pub proof fn lemma_lex_irrefl(a: Seq<char>)
    ensures
        !lex_lt(a, a),
    decreases a.len(),
{
    if a.len() > 0 {
        lemma_lex_irrefl(a.skip(1));
    }
}

pub proof fn lemma_lex_asym(a: Seq<char>, b: Seq<char>)
    requires
        lex_lt(a, b),
    ensures
        !lex_lt(b, a),
    decreases a.len(),
{
    if b.len() == 0 {
    } else if a.len() == 0 {
    } else if a[0] != b[0] {
    } else {
        lemma_lex_asym(a.skip(1), b.skip(1));
    }
}

pub proof fn lemma_lex_trans(a: Seq<char>, b: Seq<char>, c: Seq<char>)
    requires
        lex_lt(a, b),
        lex_lt(b, c),
    ensures
        lex_lt(a, c),
    decreases a.len(),
{
    if c.len() == 0 {
    } else if a.len() == 0 {
    } else {
        if b.len() == 0 {
        } else {
            if a[0] == b[0] && b[0] == c[0] {
                lemma_lex_trans(a.skip(1), b.skip(1), c.skip(1));
            }
        }
    }
}

pub proof fn lemma_lex_connected(a: Seq<char>, b: Seq<char>)
    requires
        a != b,
    ensures
        lex_lt(a, b) || lex_lt(b, a),
    decreases a.len(),
{
    if a.len() == 0 {
        if b.len() == 0 {
            assert(a =~= b);
        }
    } else if b.len() == 0 {
    } else if a[0] != b[0] {
        assert((a[0] as u32) != (b[0] as u32)) by {
            vstd::utf8::char_u32_cast(a[0], a[0] as u32);
            vstd::utf8::char_u32_cast(b[0], b[0] as u32);
        }
    } else {
        if a.skip(1) =~= b.skip(1) {
            assert(a.skip(1).len() == a.len() - 1);
            assert(b.skip(1).len() == b.len() - 1);
            assert(a.len() == b.len());
            assert forall|i: int| 0 <= i < a.len() implies a[i] == b[i] by {
                if i >= 1 {
                    assert(a.skip(1)[i - 1] == a[i]);
                    assert(b.skip(1)[i - 1] == b[i]);
                }
            }
            assert(a =~= b);
        } else {
            lemma_lex_connected(a.skip(1), b.skip(1));
        }
    }
}

pub proof fn lemma_host_asym(a: (Seq<char>, u16), b: (Seq<char>, u16))
    requires
        host_lt(a, b),
    ensures
        !host_lt(b, a),
{
    if lex_lt(a.0, b.0) {
        lemma_lex_asym(a.0, b.0);
        if a.0 == b.0 {
            lemma_lex_irrefl(a.0);
        }
    } else {
        lemma_lex_irrefl(a.0);
    }
}

pub proof fn lemma_host_trans(a: (Seq<char>, u16), b: (Seq<char>, u16), c: (Seq<char>, u16))
    requires
        host_lt(a, b),
        host_lt(b, c),
    ensures
        host_lt(a, c),
{
    if lex_lt(a.0, b.0) && lex_lt(b.0, c.0) {
        lemma_lex_trans(a.0, b.0, c.0);
    }
}

pub proof fn lemma_host_connected(a: (Seq<char>, u16), b: (Seq<char>, u16))
    requires
        a != b,
    ensures
        host_lt(a, b) || host_lt(b, a),
{
    if a.0 == b.0 {
        assert(a.1 != b.1);
    } else {
        lemma_lex_connected(a.0, b.0);
    }
}

/// Decides `lex_lt` on two strings.
pub fn lex_lt_exec(a: &str, b: &str) -> (r: bool)
    ensures
        r == lex_lt(a@, b@),
{
    let alen = a.unicode_len();
    let blen = b.unicode_len();
    let min: usize = if alen < blen {
        alen
    } else {
        blen
    };
    let mut i: usize = 0;
    proof {
        assert(a@.skip(0) =~= a@);
        assert(b@.skip(0) =~= b@);
    }
    while i < min
        invariant
            i <= min,
            alen == a@.len(),
            blen == b@.len(),
            min == if alen < blen { alen as int } else { blen as int },
            lex_lt(a@, b@) == lex_lt(a@.skip(i as int), b@.skip(i as int)),
            lex_lt(b@, a@) == lex_lt(b@.skip(i as int), a@.skip(i as int)),
        decreases min - i,
    {
        let ca = a.get_char(i);
        let cb = b.get_char(i);
        proof {
            assert(a@.skip(i as int)[0] == a@[i as int]);
            assert(b@.skip(i as int)[0] == b@[i as int]);
        }
        if ca != cb {
            return (ca as u32) < (cb as u32);
        }
        proof {
            assert(a@.skip(i as int).skip(1) =~= a@.skip(i + 1));
            assert(b@.skip(i as int).skip(1) =~= b@.skip(i + 1));
        }
        i += 1;
    }
    proof {
        assert(a@.skip(min as int).len() == alen - min);
        assert(b@.skip(min as int).len() == blen - min);
    }
    alen < blen
}

impl SshHost {
    /// Decides the execution-list order `host_lt`.
    pub fn before(&self, other: &SshHost) -> (r: bool)
        ensures
            r == host_lt(self@, other@),
    {
        if str_eq(self.hostname.as_str(), other.hostname.as_str()) {
            proof {
                lemma_lex_irrefl(self.hostname@);
            }
            self.port < other.port
        } else {
            lex_lt_exec(self.hostname.as_str(), other.hostname.as_str())
        }
    }

    /// Decides view equality: same hostname and same port.
    pub fn same(&self, other: &SshHost) -> (r: bool)
        ensures
            r == (self@ == other@),
    {
        let names = str_eq(self.hostname.as_str(), other.hostname.as_str());
        names && self.port == other.port
    }
}

// ---------------------------------------------------------------------------
// Parsing a raw `host` or `host:port` specification
// ---------------------------------------------------------------------------

/// What a raw target specification resolves to: the trimmed text before the
/// first `:` as the hostname, and the text between the first and second `:`
/// (if any) as the port.  `None` means the specification is rejected: an
/// empty hostname, a non-numeric or out-of-range port, or port zero.
pub open spec fn spec_from_target(t: Seq<char>, default_port: Option<u16>) -> Option<
    (Seq<char>, u16),
> {
    let j = find_char(t, ':', 0);
    let hostname = spec_trim(t.take(j));
    if hostname.len() == 0 {
        None
    } else if j == t.len() {
        let p: u16 = match default_port {
            Some(p) => p,
            None => 22,
        };
        if p == 0 {
            None
        } else {
            Some((hostname, p))
        }
    } else {
        let part = t.subrange(j + 1, find_char(t, ':', j + 1));
        if parses_as_u64(part) && 1 <= dec_val(numeric_body(part)) <= 65535 {
            Some((hostname, dec_val(numeric_body(part)) as u16))
        } else {
            None
        }
    }
}

/// The diagnostic a rejected target specification earns: an empty hostname
/// by name, port zero by value, any other bad port by its raw text.
pub open spec fn spec_target_error(t: Seq<char>, default_port: Option<u16>) -> Seq<char> {
    let j = find_char(t, ':', 0);
    let hostname = spec_trim(t.take(j));
    if hostname.len() == 0 {
        "Empty hostname"@
    } else if j == t.len() {
        "Invalid port: 0"@
    } else {
        let part = t.subrange(j + 1, find_char(t, ':', j + 1));
        if parses_as_u64(part) && dec_val(numeric_body(part)) == 0 {
            "Invalid port: 0"@
        } else {
            "Invalid port: "@ + part
        }
    }
}

impl SshHost {
    /// Parses one raw target specification.  The port defaults to
    /// `default_port` (or 22) when no `:` is present; an empty hostname,
    /// a malformed port and port zero are rejected.
    pub fn from_target(target: &str, default_port: Option<u16>) -> (r: Result<SshHost, SetupError>)
        ensures
            match spec_from_target(target@, default_port) {
                Some(v) => r matches Ok(h) && h@ == v,
                None => r matches Err(SetupError::InvalidHostSpec { message }) && message@
                    == spec_target_error(target@, default_port),
            },
    {
        let n = target.unicode_len();
        let j = find_char_from(target, ':', 0);
        proof {
            crate::text::lemma_find_char_props(target@, ':', 0);
            assert(target@.take(j as int) =~= target@.subrange(0, j as int));
        }
        let head = target.substring_char(0, j);
        let hostname = trim_str(head);
        if hostname.unicode_len() == 0 {
            return Err(
                SetupError::InvalidHostSpec { message: String::from_str("Empty hostname") },
            );
        }
        let port: u16 = if j == n {
            match default_port {
                Some(p) => p,
                None => 22,
            }
        } else {
            let j2 = find_char_from(target, ':', j + 1);
            proof {
                crate::text::lemma_find_char_props(target@, ':', j + 1);
            }
            let part = target.substring_char(j + 1, j2);
            match parse_u64(part) {
                Some(v) if 1 <= v && v <= 65535 => v as u16,
                Some(v) if v == 0 => {
                    return Err(
                        SetupError::InvalidHostSpec {
                            message: String::from_str("Invalid port: 0"),
                        },
                    );
                },
                _ => {
                    let mut message = String::from_str("Invalid port: ");
                    message.append(part);
                    return Err(SetupError::InvalidHostSpec { message });
                },
            }
        };
        if port == 0 {
            return Err(
                SetupError::InvalidHostSpec { message: String::from_str("Invalid port: 0") },
            );
        }
        Ok(SshHost { hostname: String::from_str(hostname), port })
    }
}

// ---------------------------------------------------------------------------
// The execution list: deduplicated and sorted
// ---------------------------------------------------------------------------

/// The views of a sequence of hosts.
pub open spec fn views_of(s: Seq<SshHost>) -> Seq<(Seq<char>, u16)> {
    s.map_values(|h: SshHost| h@)
}

/// Strictly increasing in the host order: sorted, with no duplicates.
pub open spec fn sorted_strict(s: Seq<(Seq<char>, u16)>) -> bool {
    forall|i: int, j: int| 0 <= i < j < s.len() ==> host_lt(s[i], s[j])
}

/// Inserts `h` into a strictly sorted list, keeping it strictly sorted;
/// a host already present is not inserted again.
pub fn insert_sorted(v: &mut Vec<SshHost>, h: SshHost)
    requires
        sorted_strict(views_of(old(v)@)),
    ensures
        sorted_strict(views_of(final(v)@)),
        views_of(final(v)@).to_set() == views_of(old(v)@).to_set().insert(h@),
{
    let ghost ovs = views_of(old(v)@);
    let mut idx: usize = 0;
    while idx < v.len() && v[idx].before(&h)
        invariant
            idx <= v@.len(),
            v@ == old(v)@,
            ovs == views_of(v@),
            sorted_strict(ovs),
            forall|j: int| 0 <= j < idx ==> host_lt(ovs[j], h@),
        decreases v@.len() - idx,
    {
        proof {
            assert(ovs[idx as int] == v@[idx as int]@);
        }
        idx += 1;
    }
    proof {
        assert(idx < v@.len() ==> !host_lt(ovs[idx as int], h@));
    }
    if idx < v.len() && v[idx].same(&h) {
        proof {
            assert(ovs[idx as int] == h@);
            assert(ovs.contains(h@));
            assert(ovs.to_set().contains(h@));
            assert(ovs.to_set().insert(h@) =~= ovs.to_set());
        }
        return ;
    }
    proof {
        if idx < v@.len() {
            assert(ovs[idx as int] != h@);
            lemma_host_connected(h@, ovs[idx as int]);
        }
        assert forall|k: int| idx <= k < ovs.len() implies host_lt(h@, ovs[k]) by {
            if k > idx {
                lemma_host_trans(h@, ovs[idx as int], ovs[k]);
            }
        }
    }
    v.insert(idx, h);
    proof {
        old(v)@.insert_ensures(idx as int, h);
        let nvs = views_of(v@);
        assert(v@.len() == old(v)@.len() + 1);
        assert forall|k: int| 0 <= k < nvs.len() implies nvs[k] == (if k < idx {
            ovs[k]
        } else if k == idx {
            h@
        } else {
            ovs[k - 1]
        }) by {
            assert(nvs[k] == v@[k]@);
            if k < idx {
                assert(v@[k] == old(v)@[k]);
                assert(ovs[k] == old(v)@[k]@);
            } else if k == idx {
                assert(v@[k] == h);
            } else {
                assert(v@[k] == old(v)@[k - 1]);
                assert(ovs[k - 1] == old(v)@[k - 1]@);
            }
        }
        assert forall|i: int, j: int| 0 <= i < j < nvs.len() implies host_lt(nvs[i], nvs[j]) by {
            if j < idx {
            } else if j == idx {
                assert(host_lt(ovs[i], h@));
            } else if i < idx {
                assert(host_lt(ovs[i], nvs[j]));
            } else if i == idx {
                assert(host_lt(h@, ovs[j - 1]));
            } else {
                assert(host_lt(ovs[i - 1], ovs[j - 1]));
            }
        }
        assert forall|x: (Seq<char>, u16)|
            nvs.to_set().contains(x) <==> ovs.to_set().insert(h@).contains(x) by {
            if nvs.to_set().contains(x) {
                let k = choose|k: int| 0 <= k < nvs.len() && nvs[k] == x;
                if k < idx {
                    assert(ovs[k] == x);
                    assert(ovs.to_set().contains(x));
                } else if k == idx {
                } else {
                    assert(ovs[k - 1] == x);
                    assert(ovs.to_set().contains(x));
                }
            }
            if ovs.to_set().insert(h@).contains(x) {
                if x == h@ {
                    assert(nvs[idx as int] == x);
                    assert(nvs.to_set().contains(x));
                } else {
                    assert(ovs.to_set().contains(x));
                    let k = choose|k: int| 0 <= k < ovs.len() && ovs[k] == x;
                    if k < idx {
                        assert(nvs[k] == x);
                    } else {
                        assert(nvs[k + 1] == x);
                    }
                    assert(nvs.to_set().contains(x));
                }
            }
        }
        assert(nvs.to_set() =~= ovs.to_set().insert(h@));
    }
}

/// Whether an inventory line survives filtering: non-empty after trimming
/// and not a `#` comment.
pub open spec fn spec_kept_line(l: Seq<char>) -> bool {
    let t = spec_trim(l);
    t.len() > 0 && t[0] != '#'
}

/// The hosts named by the first `ns` command-line specifications and the
/// first `nl` inventory lines that parse successfully.
pub open spec fn partial_parsed_set(
    specs: Seq<Seq<char>>,
    ns: int,
    lines: Seq<Seq<char>>,
    nl: int,
) -> Set<(Seq<char>, u16)> {
    Set::new(
        |v: (Seq<char>, u16)|
            (exists|i: int| 0 <= i < ns && i < specs.len() && spec_from_target(specs[i], None) == Some(v))
            || (exists|i: int|
                0 <= i < nl && i < lines.len() && spec_kept_line(lines[i]) && spec_from_target(
                    spec_trim(lines[i]),
                    None,
                ) == Some(v)),
    )
}

/// Every host named by the command line and by the kept inventory lines.
pub open spec fn spec_parsed_set(specs: Seq<Seq<char>>, lines: Seq<Seq<char>>) -> Set<
    (Seq<char>, u16),
> {
    partial_parsed_set(specs, specs.len() as int, lines, lines.len() as int)
}

/// Whether every command-line specification and every kept inventory line
/// parses successfully.
pub open spec fn spec_all_parse(specs: Seq<Seq<char>>, lines: Seq<Seq<char>>) -> bool {
    (forall|i: int| 0 <= i < specs.len() ==> spec_from_target(specs[i], None) is Some)
        && (forall|i: int|
        0 <= i < lines.len() && spec_kept_line(lines[i]) ==> spec_from_target(
            spec_trim(lines[i]),
            None,
        ) is Some)
}

/// Whether anything at all was named.
pub open spec fn spec_has_target(specs: Seq<Seq<char>>, lines: Seq<Seq<char>>) -> bool {
    specs.len() > 0 || exists|i: int| 0 <= i < lines.len() && spec_kept_line(lines[i])
}

/// Resolves the execution list: parses every command-line specification and
/// every kept inventory line, deduplicates, and sorts.  Fails on the first
/// malformed specification, or when nothing was named at all.
pub fn resolve_hosts(target_specs: &Vec<String>, inventory_lines: &Vec<String>) -> (r: Result<
    Vec<SshHost>,
    SetupError,
>)
    ensures
        r is Ok <==> (spec_all_parse(target_specs.deep_view(), inventory_lines.deep_view())
            && spec_has_target(target_specs.deep_view(), inventory_lines.deep_view())),
        r matches Ok(v) ==> {
            &&& sorted_strict(views_of(v@))
            &&& views_of(v@).to_set() == spec_parsed_set(
                target_specs.deep_view(),
                inventory_lines.deep_view(),
            )
            &&& v@.len() > 0
        },
        r matches Err(e) ==> (if spec_all_parse(target_specs.deep_view(), inventory_lines.deep_view()) {
            e matches SetupError::NoHosts
        } else {
            e matches SetupError::InvalidHostSpec { .. }
        }),
{
    let ghost specs = target_specs.deep_view();
    let ghost lines = inventory_lines.deep_view();
    let mut v: Vec<SshHost> = Vec::new();
    let mut i: usize = 0;
    proof {
        assert(views_of(v@).to_set() =~= partial_parsed_set(specs, 0, lines, 0));
    }
    while i < target_specs.len()
        invariant
            i <= target_specs.len(),
            specs == target_specs.deep_view(),
            lines == inventory_lines.deep_view(),
            specs.len() == target_specs.len(),
            sorted_strict(views_of(v@)),
            views_of(v@).to_set() == partial_parsed_set(specs, i as int, lines, 0),
            forall|j: int| 0 <= j < i ==> spec_from_target(specs[j], None) is Some,
        decreases target_specs.len() - i,
    {
        proof {
            assert(specs[i as int] == target_specs[i as int]@);
        }
        match SshHost::from_target(target_specs[i].as_str(), None) {
            Ok(h) => {
                let ghost before = views_of(v@).to_set();
                insert_sorted(&mut v, h);
                proof {
                    assert(views_of(v@).to_set() =~= partial_parsed_set(
                        specs,
                        i + 1,
                        lines,
                        0,
                    )) by {
                        lemma_partial_set_step_spec(specs, i as int, lines, before, h@);
                    }
                }
            },
            Err(e) => {
                proof {
                    assert(spec_from_target(specs[i as int], None) is None);
                    assert(!spec_all_parse(specs, lines));
                }
                return Err(e);
            },
        }
        i += 1;
    }
    let mut k: usize = 0;
    while k < inventory_lines.len()
        invariant
            k <= inventory_lines.len(),
            specs == target_specs.deep_view(),
            lines == inventory_lines.deep_view(),
            specs.len() == target_specs.len(),
            lines.len() == inventory_lines.len(),
            sorted_strict(views_of(v@)),
            views_of(v@).to_set() == partial_parsed_set(specs, specs.len() as int, lines, k as int),
            forall|j: int| 0 <= j < specs.len() ==> spec_from_target(specs[j], None) is Some,
            forall|j: int|
                0 <= j < k && spec_kept_line(lines[j]) ==> spec_from_target(
                    spec_trim(lines[j]),
                    None,
                ) is Some,
        decreases inventory_lines.len() - k,
    {
        proof {
            assert(lines[k as int] == inventory_lines[k as int]@);
        }
        let line = trim_str(inventory_lines[k].as_str());
        let keep = line.unicode_len() > 0 && line.get_char(0) != '#';
        proof {
            assert(keep == spec_kept_line(lines[k as int]));
        }
        if keep {
            match SshHost::from_target(line, None) {
                Ok(h) => {
                    let ghost before = views_of(v@).to_set();
                    insert_sorted(&mut v, h);
                    proof {
                        assert(views_of(v@).to_set() =~= partial_parsed_set(
                            specs,
                            specs.len() as int,
                            lines,
                            k + 1,
                        )) by {
                            lemma_partial_set_step_line(specs, lines, k as int, before, h@);
                        }
                    }
                },
                Err(e) => {
                    proof {
                        assert(spec_from_target(spec_trim(lines[k as int]), None) is None);
                        assert(!spec_all_parse(specs, lines));
                    }
                    return Err(e);
                },
            }
        } else {
            proof {
                assert(partial_parsed_set(specs, specs.len() as int, lines, k + 1)
                    =~= partial_parsed_set(specs, specs.len() as int, lines, k as int));
            }
        }
        k += 1;
    }
    if v.len() == 0 {
        proof {
            lemma_no_hosts(specs, lines, views_of(v@));
        }
        return Err(SetupError::NoHosts);
    }
    proof {
        let x = views_of(v@)[0];
        assert(views_of(v@).contains(x));
        assert(views_of(v@).to_set().contains(x));
        assert(spec_has_target(specs, lines)) by {
            if !(exists|i: int|
                0 <= i < specs.len() && spec_from_target(specs[i], None) == Some(x)) {
                let w = choose|w: int|
                    0 <= w < lines.len() && spec_kept_line(lines[w]) && spec_from_target(
                        spec_trim(lines[w]),
                        None,
                    ) == Some(x);
                assert(0 <= w < lines.len() && spec_kept_line(lines[w]));
            }
        }
    }
    Ok(v)
}

proof fn lemma_partial_set_step_spec(
    specs: Seq<Seq<char>>,
    i: int,
    lines: Seq<Seq<char>>,
    before: Set<(Seq<char>, u16)>,
    hv: (Seq<char>, u16),
)
    requires
        0 <= i < specs.len(),
        spec_from_target(specs[i], None) == Some(hv),
        before == partial_parsed_set(specs, i, lines, 0),
    ensures
        before.insert(hv) =~= partial_parsed_set(specs, i + 1, lines, 0),
{
    assert forall|x: (Seq<char>, u16)|
        before.insert(hv).contains(x) <==> partial_parsed_set(specs, i + 1, lines, 0).contains(
            x,
        ) by {
        if before.insert(hv).contains(x) {
            if x == hv {
                assert(spec_from_target(specs[i], None) == Some(x));
            }
        }
        if partial_parsed_set(specs, i + 1, lines, 0).contains(x) {
            let w = choose|w: int|
                0 <= w < i + 1 && w < specs.len() && spec_from_target(specs[w], None) == Some(x);
            if w == i {
                assert(x == hv);
            } else {
                assert(before.contains(x));
            }
        }
    }
}

proof fn lemma_partial_set_step_line(
    specs: Seq<Seq<char>>,
    lines: Seq<Seq<char>>,
    k: int,
    before: Set<(Seq<char>, u16)>,
    hv: (Seq<char>, u16),
)
    requires
        0 <= k < lines.len(),
        spec_kept_line(lines[k]),
        spec_from_target(spec_trim(lines[k]), None) == Some(hv),
        before == partial_parsed_set(specs, specs.len() as int, lines, k),
    ensures
        before.insert(hv) =~= partial_parsed_set(specs, specs.len() as int, lines, k + 1),
{
    assert forall|x: (Seq<char>, u16)|
        before.insert(hv).contains(x) <==> partial_parsed_set(
            specs,
            specs.len() as int,
            lines,
            k + 1,
        ).contains(x) by {
        if before.insert(hv).contains(x) {
            if x == hv {
                assert(0 <= k < k + 1 && k < lines.len() && spec_kept_line(lines[k])
                    && spec_from_target(spec_trim(lines[k]), None) == Some(x));
            }
        }
        if partial_parsed_set(specs, specs.len() as int, lines, k + 1).contains(x) {
            if exists|w: int|
                0 <= w < specs.len() && spec_from_target(specs[w], None) == Some(x) {
                assert(before.contains(x));
            } else {
                let w = choose|w: int|
                    0 <= w < k + 1 && w < lines.len() && spec_kept_line(lines[w])
                        && spec_from_target(spec_trim(lines[w]), None) == Some(x);
                if w == k {
                    assert(x == hv);
                } else {
                    assert(before.contains(x));
                }
            }
        }
    }
}

proof fn lemma_no_hosts(specs: Seq<Seq<char>>, lines: Seq<Seq<char>>, vs: Seq<(Seq<char>, u16)>)
    requires
        vs.len() == 0,
        vs.to_set() == spec_parsed_set(specs, lines),
        spec_all_parse(specs, lines),
    ensures
        !spec_has_target(specs, lines),
{
    if spec_has_target(specs, lines) {
        if specs.len() > 0 {
            let x = spec_from_target(specs[0], None)->Some_0;
            assert(spec_parsed_set(specs, lines).contains(x));
            assert(vs.contains(x));
        } else {
            let w = choose|w: int| 0 <= w < lines.len() && spec_kept_line(lines[w]);
            let x = spec_from_target(spec_trim(lines[w]), None)->Some_0;
            assert(spec_parsed_set(specs, lines).contains(x));
            assert(vs.contains(x));
        }
    }
}

// ---------------------------------------------------------------------------
// Determinism of resolution
// ---------------------------------------------------------------------------

/// Two strictly sorted sequences over the host order that contain the same
/// set of hosts are the same sequence.
pub proof fn lemma_sorted_unique(s1: Seq<(Seq<char>, u16)>, s2: Seq<(Seq<char>, u16)>)
    requires
        sorted_strict(s1),
        sorted_strict(s2),
        s1.to_set() == s2.to_set(),
    ensures
        s1 == s2,
    decreases s1.len(),
{
    if s1.len() == 0 {
        if s2.len() > 0 {
            assert(s2.contains(s2[0]));
            assert(s2.to_set().contains(s2[0]));
            assert(s1.contains(s2[0]));
        }
        assert(s1 =~= s2);
    } else if s2.len() == 0 {
        assert(s1.contains(s1[0]));
        assert(s1.to_set().contains(s1[0]));
        assert(s2.contains(s1[0]));
    } else {
        assert(s1[0] == s2[0]) by {
            assert(s1.contains(s1[0]));
            assert(s2.to_set().contains(s1[0]));
            let j = choose|j: int| 0 <= j < s2.len() && s2[j] == s1[0];
            assert(s2.contains(s2[0]));
            assert(s1.to_set().contains(s2[0]));
            let i = choose|i: int| 0 <= i < s1.len() && s1[i] == s2[0];
            if j > 0 {
                assert(host_lt(s2[0], s1[0]));
                if i > 0 {
                    assert(host_lt(s1[0], s2[0]));
                    lemma_host_asym(s1[0], s2[0]);
                }
            }
        }
        let t1 = s1.skip(1);
        let t2 = s2.skip(1);
        assert(sorted_strict(t1)) by {
            assert(forall|i: int, j: int|
                0 <= i < j < t1.len() ==> t1[i] == s1[i + 1] && t1[j] == s1[j + 1]);
        }
        assert(sorted_strict(t2)) by {
            assert(forall|i: int, j: int|
                0 <= i < j < t2.len() ==> t2[i] == s2[i + 1] && t2[j] == s2[j + 1]);
        }
        assert(t1.to_set() =~= s1.to_set().remove(s1[0])) by {
            lemma_tail_set(s1);
        }
        assert(t2.to_set() =~= s2.to_set().remove(s2[0])) by {
            lemma_tail_set(s2);
        }
        lemma_sorted_unique(t1, t2);
        assert(s1 =~= s2) by {
            assert(forall|i: int| 1 <= i < s1.len() ==> s1[i] == t1[i - 1] && s2[i] == t2[i - 1]);
        }
    }
}

/// In a strictly sorted sequence the head is not in the tail, so the tail's
/// set is the whole set without the head.
proof fn lemma_tail_set(s: Seq<(Seq<char>, u16)>)
    requires
        sorted_strict(s),
        s.len() > 0,
    ensures
        s.skip(1).to_set() =~= s.to_set().remove(s[0]),
{
    let t = s.skip(1);
    assert forall|x: (Seq<char>, u16)|
        t.to_set().contains(x) <==> s.to_set().remove(s[0]).contains(x) by {
        if t.to_set().contains(x) {
            let k = choose|k: int| 0 <= k < t.len() && t[k] == x;
            assert(s[k + 1] == x);
            assert(s.contains(x));
            assert(host_lt(s[0], s[k + 1]));
            assert(x != s[0]) by {
                lemma_host_asym(s[0], s[k + 1]);
            }
        }
        if s.to_set().remove(s[0]).contains(x) {
            let k = choose|k: int| 0 <= k < s.len() && s[k] == x;
            if k == 0 {
            } else {
                assert(t[k - 1] == x);
                assert(t.contains(x));
            }
        }
    }
}

/// What resolution yields depends only on which raw specifications and lines
/// appear, not on their order or duplication.
proof fn lemma_parsed_set_same(
    specs1: Seq<Seq<char>>,
    lines1: Seq<Seq<char>>,
    specs2: Seq<Seq<char>>,
    lines2: Seq<Seq<char>>,
)
    requires
        specs1.to_set() == specs2.to_set(),
        lines1.to_set() == lines2.to_set(),
    ensures
        spec_parsed_set(specs1, lines1) =~= spec_parsed_set(specs2, lines2),
{
    assert forall|x: (Seq<char>, u16)|
        spec_parsed_set(specs1, lines1).contains(x) implies spec_parsed_set(
        specs2,
        lines2,
    ).contains(x) by {
        lemma_parsed_set_covers(specs1, lines1, specs2, lines2, x);
    }
    assert forall|x: (Seq<char>, u16)|
        spec_parsed_set(specs2, lines2).contains(x) implies spec_parsed_set(
        specs1,
        lines1,
    ).contains(x) by {
        lemma_parsed_set_covers(specs2, lines2, specs1, lines1, x);
    }
}

proof fn lemma_parsed_set_covers(
    specs1: Seq<Seq<char>>,
    lines1: Seq<Seq<char>>,
    specs2: Seq<Seq<char>>,
    lines2: Seq<Seq<char>>,
    x: (Seq<char>, u16),
)
    requires
        specs1.to_set() == specs2.to_set(),
        lines1.to_set() == lines2.to_set(),
        spec_parsed_set(specs1, lines1).contains(x),
    ensures
        spec_parsed_set(specs2, lines2).contains(x),
{
    if exists|i: int| 0 <= i < specs1.len() && spec_from_target(specs1[i], None) == Some(x) {
        let i = choose|i: int|
            0 <= i < specs1.len() && spec_from_target(specs1[i], None) == Some(x);
        assert(specs1.contains(specs1[i]));
        assert(specs1.to_set().contains(specs1[i]));
        assert(specs2.contains(specs1[i]));
        let j = choose|j: int| 0 <= j < specs2.len() && specs2[j] == specs1[i];
        assert(spec_from_target(specs2[j], None) == Some(x));
    } else {
        let i = choose|i: int|
            0 <= i < lines1.len() && spec_kept_line(lines1[i]) && spec_from_target(
                spec_trim(lines1[i]),
                None,
            ) == Some(x);
        assert(lines1.contains(lines1[i]));
        assert(lines1.to_set().contains(lines1[i]));
        assert(lines2.contains(lines1[i]));
        let j = choose|j: int| 0 <= j < lines2.len() && lines2[j] == lines1[i];
        assert(spec_kept_line(lines2[j]) && spec_from_target(spec_trim(lines2[j]), None) == Some(
            x,
        ));
    }
}

/// Resolution is deterministic: two resolved execution lists built from
/// inputs that name the same raw specifications and inventory lines — in any
/// order, with any duplication — are identical.
pub proof fn lemma_resolution_deterministic(
    out1: Seq<(Seq<char>, u16)>,
    out2: Seq<(Seq<char>, u16)>,
    specs1: Seq<Seq<char>>,
    lines1: Seq<Seq<char>>,
    specs2: Seq<Seq<char>>,
    lines2: Seq<Seq<char>>,
)
    requires
        sorted_strict(out1),
        sorted_strict(out2),
        out1.to_set() == spec_parsed_set(specs1, lines1),
        out2.to_set() == spec_parsed_set(specs2, lines2),
        specs1.to_set() == specs2.to_set(),
        lines1.to_set() == lines2.to_set(),
    ensures
        out1 == out2,
{
    lemma_parsed_set_same(specs1, lines1, specs2, lines2);
    lemma_sorted_unique(out1, out2);
}

} // verus!
