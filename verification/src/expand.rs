//! The macro-expansion engine. A template string may hold tokens of the
//! form `${name}`; expansion walks the string once, left to right, and
//! substitutes every recognized token. Two passes exist: the simple pass
//! (commit hash, calendar date and time, timestamp, `${env.NAME}`), and
//! the context pass used for artifact file names (`${ext}`, `${arch}`,
//! and any string-typed metadata field, through a fixed lookup table).
//! Unrecognized tokens are left verbatim: expansion is best-effort, not
//! strict. A `${env.NAME}` token whose variable is unbound, or `${git}`
//! when no commit hash is available, fails expansion.

use vstd::prelude::*;

use crate::error::{Error, ErrorKind};
use crate::platform::{Arch, Metadata, PlatformTarget};
use crate::text::{spec_dec, str_eq, u64_to_string};

verus! {

/// A word character: what may stand in an environment variable name or a
/// metadata field name.
pub open spec fn is_word_char(c: char) -> bool {
    let u = c as u32;
    (97 <= u && u <= 122) || (65 <= u && u <= 90) || (48 <= u && u <= 57) || u == 95
}

/// A token character: what may stand between `${` and `}`. Beyond word
/// characters this admits `-` (for `${date-time}`) and `.` (for the
/// `${env.NAME}` family).
pub open spec fn is_token_char(c: char) -> bool {
    is_word_char(c) || c as u32 == 45 || c as u32 == 46
}

fn is_word_char_exec(c: char) -> (r: bool)
    ensures
        r == is_word_char(c),
{
    let u = c as u32;
    (97 <= u && u <= 122) || (65 <= u && u <= 90) || (48 <= u && u <= 57) || u == 95
}

fn is_token_char_exec(c: char) -> (r: bool)
    ensures
        r == is_token_char(c),
{
    let u = c as u32;
    is_word_char_exec(c) || u == 45 || u == 46
}

/// How many consecutive token characters stand at `j`.
pub open spec fn spec_token_len(s: Seq<char>, j: int) -> nat
    decreases s.len() - j,
{
    if j < 0 || j >= s.len() || !is_token_char(s[j]) {
        0
    } else {
        1 + spec_token_len(s, j + 1)
    }
}

/// Every character inside the span counted by `spec_token_len` is a token
/// character.
proof fn lemma_token_span_chars(s: Seq<char>, a: int)
    ensures
        forall|j: int| a <= j < a + spec_token_len(s, a) ==> is_token_char(s[j]),
    decreases s.len() - a,
{
    if 0 <= a < s.len() && is_token_char(s[a]) {
        lemma_token_span_chars(s, a + 1);
    }
}

/// When every character in `[a, b)` is a token character and the one at
/// `b` is not, the token span at `a` ends exactly at `b`.
proof fn lemma_token_len_range(s: Seq<char>, a: int, b: int)
    requires
        0 <= a <= b < s.len(),
        forall|j: int| a <= j < b ==> is_token_char(s[j]),
        !is_token_char(s[b]),
    ensures
        a + spec_token_len(s, a) == b,
    decreases b - a,
{
    if a < b {
        lemma_token_len_range(s, a + 1, b);
    }
}

/// A resolution table: exact token names with their replacements, token
/// names that fail expansion, and (for the simple pass) the environment
/// bindings behind the `env.` family. A table with `env` unset does not
/// recognize `env.` tokens at all.
pub struct MacroTable {
    pub rules: Vec<(String, String)>,
    pub failing: Vec<(String, ErrorKind)>,
    pub env: Option<Vec<(String, String)>>,
}

/// Spec-level image of a list of string pairs.
pub open spec fn spec_pairs(v: Seq<(String, String)>) -> Seq<(Seq<char>, Seq<char>)> {
    v.map_values(|p: (String, String)| (p.0@, p.1@))
}

/// Spec-level image of a `MacroTable`.
#[verifier::ext_equal]
pub struct MacroTableV {
    pub rules: Seq<(Seq<char>, Seq<char>)>,
    pub failing: Seq<(Seq<char>, ErrorKind)>,
    pub env: Option<Seq<(Seq<char>, Seq<char>)>>,
}

impl View for MacroTable {
    type V = MacroTableV;

    open spec fn view(&self) -> MacroTableV {
        MacroTableV {
            rules: spec_pairs(self.rules@),
            failing: self.failing@.map_values(|p: (String, ErrorKind)| (p.0@, p.1)),
            env: match self.env {
                Some(env) => Some(spec_pairs(env@)),
                None => None,
            },
        }
    }
}

/// The first binding of `name` at or after position `i`, if any.
pub open spec fn spec_assoc(pairs: Seq<(Seq<char>, Seq<char>)>, name: Seq<char>, i: int) -> Option<
    Seq<char>,
>
    decreases pairs.len() - i,
{
    if i < 0 || i >= pairs.len() {
        None
    } else if pairs[i].0 == name {
        Some(pairs[i].1)
    } else {
        spec_assoc(pairs, name, i + 1)
    }
}

/// The first failing rule for `name` at or after position `i`, if any.
pub open spec fn spec_failing(
    pairs: Seq<(Seq<char>, ErrorKind)>,
    name: Seq<char>,
    i: int,
) -> Option<ErrorKind>
    decreases pairs.len() - i,
{
    if i < 0 || i >= pairs.len() {
        None
    } else if pairs[i].0 == name {
        Some(pairs[i].1)
    } else {
        spec_failing(pairs, name, i + 1)
    }
}

/// What resolving one token name yields.
pub enum SpecResolution {
    Resolved(Seq<char>),
    Verbatim,
    Failed(ErrorKind),
}

/// Resolves one token name against a table. The `env.` family is handled
/// first where the table carries bindings: a bound name resolves to its
/// value, an unbound one fails. Otherwise the exact rules apply, then the
/// failing rules; a name no rule covers stays verbatim.
pub open spec fn spec_resolve(t: MacroTableV, name: Seq<char>) -> SpecResolution {
    if t.env is Some && name.len() > 4 && name.subrange(0, 4) == "env."@ && (forall|j: int|
        4 <= j < name.len() ==> is_word_char(name[j])) {
        match spec_assoc(t.env->Some_0, name.subrange(4, name.len() as int), 0) {
            Some(v) => SpecResolution::Resolved(v),
            None => SpecResolution::Failed(ErrorKind::EnvironmentNotSetError),
        }
    } else {
        match spec_assoc(t.rules, name, 0) {
            Some(v) => SpecResolution::Resolved(v),
            None => match spec_failing(t.failing, name, 0) {
                Some(k) => SpecResolution::Failed(k),
                None => SpecResolution::Verbatim,
            },
        }
    }
}

/// An expansion failure: its kind, and the name of the token that failed
/// as its context message.
pub type ExpandError = (ErrorKind, Seq<char>);

/// One left-to-right expansion walk, from position `i`, with `acc` already
/// produced. At `${`, the maximal run of token characters follows; if a
/// `}` closes a non-empty run, the token is resolved: a resolved value is
/// appended, a verbatim token is copied as it stands, a failing token
/// aborts with its name as context. Anything else is copied character by
/// character.
pub open spec fn spec_expand_from(
    s: Seq<char>,
    t: MacroTableV,
    i: int,
    acc: Seq<char>,
) -> Result<Seq<char>, ExpandError>
    decreases s.len() - i,
{
    if i < 0 || i >= s.len() {
        Ok(acc)
    } else if s[i] == '$' && i + 1 < s.len() && s[i + 1] == '{' {
        let e = i + 2 + spec_token_len(s, i + 2);
        if e < s.len() && s[e] == '}' && e > i + 2 {
            match spec_resolve(t, s.subrange(i + 2, e)) {
                SpecResolution::Resolved(v) => spec_expand_from(s, t, e + 1, acc + v),
                SpecResolution::Failed(k) => Err((k, s.subrange(i + 2, e))),
                SpecResolution::Verbatim => spec_expand_from(s, t, e + 1, acc + s.subrange(i, e + 1)),
            }
        } else {
            spec_expand_from(s, t, i + 1, acc + seq![s[i]])
        }
    } else {
        spec_expand_from(s, t, i + 1, acc + seq![s[i]])
    }
}

/// The expansion of a whole template against a table.
pub open spec fn spec_expand(s: Seq<char>, t: MacroTableV) -> Result<Seq<char>, ExpandError> {
    spec_expand_from(s, t, 0, Seq::empty())
}

/// What resolving one token name yielded, executable side.
pub enum Resolution {
    Resolved(String),
    Verbatim,
    Failed(ErrorKind),
}

impl View for Resolution {
    type V = SpecResolution;

    open spec fn view(&self) -> SpecResolution {
        match self {
            Resolution::Resolved(v) => SpecResolution::Resolved(v@),
            Resolution::Verbatim => SpecResolution::Verbatim,
            Resolution::Failed(k) => SpecResolution::Failed(*k),
        }
    }
}

fn assoc_lookup(pairs: &Vec<(String, String)>, name: &str) -> (r: Option<String>)
    ensures
        match r {
            Some(v) => spec_assoc(spec_pairs(pairs@), name@, 0) == Some(v@),
            None => spec_assoc(spec_pairs(pairs@), name@, 0) is None,
        },
{
    let mut i: usize = 0;
    while i < pairs.len()
        invariant
            i <= pairs@.len(),
            spec_assoc(spec_pairs(pairs@), name@, 0) == spec_assoc(
                spec_pairs(pairs@),
                name@,
                i as int,
            ),
        decreases pairs@.len() - i,
    {
        proof {
            assert(spec_pairs(pairs@)[i as int] == (pairs@[i as int].0@, pairs@[i as int].1@));
        }
        if str_eq(pairs[i].0.as_str(), name) {
            return Some(pairs[i].1.clone());
        }
        i += 1;
    }
    None
}

fn failing_lookup(pairs: &Vec<(String, ErrorKind)>, name: &str) -> (r: Option<ErrorKind>)
    ensures
        ({
            let pv = pairs@.map_values(|p: (String, ErrorKind)| (p.0@, p.1));
            match r {
                Some(k) => spec_failing(pv, name@, 0) == Some(k),
                None => spec_failing(pv, name@, 0) is None,
            }
        }),
{
    let ghost pv = pairs@.map_values(|p: (String, ErrorKind)| (p.0@, p.1));
    let mut i: usize = 0;
    while i < pairs.len()
        invariant
            i <= pairs@.len(),
            pv == pairs@.map_values(|p: (String, ErrorKind)| (p.0@, p.1)),
            spec_failing(pv, name@, 0) == spec_failing(pv, name@, i as int),
        decreases pairs@.len() - i,
    {
        proof {
            assert(pv[i as int] == (pairs@[i as int].0@, pairs@[i as int].1));
        }
        if str_eq(pairs[i].0.as_str(), name) {
            return Some(pairs[i].1);
        }
        i += 1;
    }
    None
}

fn all_word_chars(s: &str) -> (r: bool)
    ensures
        r == (forall|j: int| 0 <= j < s@.len() ==> is_word_char(s@[j])),
{
    let n = s.unicode_len();
    let mut i: usize = 0;
    while i < n
        invariant
            n == s@.len(),
            i <= n,
            forall|j: int| 0 <= j < i ==> is_word_char(s@[j]),
        decreases n - i,
    {
        if !is_word_char_exec(s.get_char(i)) {
            return false;
        }
        i += 1;
    }
    true
}

/// Resolves one token name against a table.
fn resolve_token(table: &MacroTable, name: &str) -> (r: Resolution)
    ensures
        r@ == spec_resolve(table@, name@),
{
    proof {
        reveal_strlit("env.");
        assert("env."@.len() == 4);
    }
    if let Some(env) = table.env.as_ref() {
        let n = name.unicode_len();
        if n > 4 {
            let head = name.substring_char(0, 4);
            if str_eq(head, "env.") {
                let rest = name.substring_char(4, n);
                if all_word_chars(rest) {
                    proof {
                        assert forall|j: int| 4 <= j < name@.len() implies is_word_char(
                            name@[j],
                        ) by {
                            assert(rest@[j - 4] == name@[j]);
                        }
                    }
                    return match assoc_lookup(env, rest) {
                        Some(v) => Resolution::Resolved(v),
                        None => Resolution::Failed(ErrorKind::EnvironmentNotSetError),
                    };
                }
            }
        }
    }
    proof {
        if table@.env is Some && name@.len() > 4 && name@.subrange(0, 4) == "env."@ && (forall|
            j: int,
        |
            4 <= j < name@.len() ==> is_word_char(name@[j])) {
            assert(false);
        }
    }
    match assoc_lookup(&table.rules, name) {
        Some(v) => Resolution::Resolved(v),
        None => match failing_lookup(&table.failing, name) {
            Some(k) => Resolution::Failed(k),
            None => Resolution::Verbatim,
        },
    }
}

fn is_token_char_at(s: &str, j: usize, n: usize) -> (r: bool)
    requires
        n == s@.len(),
        j <= n,
    ensures
        r == (j < n && is_token_char(s@[j as int])),
{
    if j < n {
        is_token_char_exec(s.get_char(j))
    } else {
        false
    }
}

fn token_scan(s: &str, start: usize, n: usize) -> (j: usize)
    requires
        n == s@.len(),
        start <= n,
    ensures
        start <= j <= n,
        j == start + spec_token_len(s@, start as int),
{
    let mut j = start;
    while is_token_char_at(s, j, n)
        invariant
            n == s@.len(),
            start <= j <= n,
            spec_token_len(s@, start as int) == j - start + spec_token_len(s@, j as int),
        decreases n - j,
    {
        j += 1;
    }
    j
}

/// Expands a template against a resolution table: one walk, every
/// recognized token substituted, unrecognized tokens left verbatim, and
/// the first failing token aborting with its error kind.
pub fn expand_with(s: &str, table: &MacroTable) -> (r: Result<String, Error>)
    ensures
        r matches Ok(out) ==> spec_expand(s@, table@) == Ok::<Seq<char>, ExpandError>(out@),
        r matches Err(e) ==> spec_expand(s@, table@) == Err::<Seq<char>, ExpandError>(
            (e.spec_kind(), e.spec_message()),
        ),
{
    let n = s.unicode_len();
    let mut out = String::new();
    let mut i: usize = 0;
    while i < n
        invariant
            n == s@.len(),
            i <= n,
            spec_expand(s@, table@) == spec_expand_from(s@, table@, i as int, out@),
        decreases n - i,
    {
        let c = s.get_char(i);
        if c == '$' && i + 1 < n && s.get_char(i + 1) == '{' {
            let e = token_scan(s, i + 2, n);
            let closed = if e < n {
                s.get_char(e) == '}'
            } else {
                false
            };
            if closed && e > i + 2 {
                let name = s.substring_char(i + 2, e);
                match resolve_token(table, name) {
                    Resolution::Resolved(v) => {
                        out.append(v.as_str());
                        i = e + 1;
                    },
                    Resolution::Verbatim => {
                        let verbatim = s.substring_char(i, e + 1);
                        out.append(verbatim);
                        i = e + 1;
                    },
                    Resolution::Failed(k) => {
                        return Err(Error::from_string(k, name.to_owned()));
                    },
                }
            } else {
                let piece = s.substring_char(i, i + 1);
                out.append(piece);
                proof {
                    assert(piece@ =~= seq![s@[i as int]]);
                }
                i += 1;
            }
        } else {
            let piece = s.substring_char(i, i + 1);
            out.append(piece);
            proof {
                assert(piece@ =~= seq![s@[i as int]]);
            }
            i += 1;
        }
    }
    Ok(out)
}

fn clone_pairs(v: &Vec<(String, String)>) -> (r: Vec<(String, String)>)
    ensures
        spec_pairs(r@) == spec_pairs(v@),
{
    let mut out: Vec<(String, String)> = Vec::new();
    let mut i: usize = 0;
    while i < v.len()
        invariant
            i <= v@.len(),
            out@.len() == i,
            spec_pairs(out@) =~= spec_pairs(v@).take(i as int),
        decreases v@.len() - i,
    {
        let (a, b) = &v[i];
        out.push((a.clone(), b.clone()));
        proof {
            assert(spec_pairs(out@) =~~= spec_pairs(v@).take(i + 1int));
        }
        i += 1;
    }
    proof {
        assert(spec_pairs(v@).take(v@.len() as int) =~~= spec_pairs(v@));
    }
    out
}

/// The values the simple pass substitutes: the commit hash where one is
/// available, the calendar date and time strings, the epoch timestamp,
/// and the environment bindings. The caller gathers them; expansion
/// itself is pure.
pub struct SimpleMacroValues {
    /// The abbreviated commit hash of the current checkout; `None` when
    /// the working directory is no repository or the tool is unavailable,
    /// which makes a `${git}` token fail.
    pub git: Option<String>,
    /// The local calendar date, `YYYYMMDD`.
    pub date: String,
    /// The local date and time, `YYYYMMDDHHMMSS`.
    pub date_time: String,
    /// Unix epoch seconds, in decimal.
    pub timestamp: String,
    /// The environment, as name/value pairs.
    pub env: Vec<(String, String)>,
}

/// The simple pass's resolution table for given values.
pub open spec fn spec_simple_table(v: SimpleMacroValues) -> MacroTableV {
    MacroTableV {
        rules: (match v.git {
            Some(g) => seq![("git"@, g@)],
            None => Seq::empty(),
        }) + seq![("date"@, v.date@), ("date-time"@, v.date_time@), ("timestamp"@, v.timestamp@)],
        failing: (match v.git {
            Some(_) => Seq::empty(),
            None => seq![("git"@, ErrorKind::GitHashError)],
        }),
        env: Some(spec_pairs(v.env@)),
    }
}

/// The simple expansion pass: `${git}`, `${date}`, `${date-time}`,
/// `${timestamp}` and the `${env.NAME}` family, resolved against the
/// given values; everything else is left verbatim.
pub fn expand_file_macro_simple(s: &str, values: &SimpleMacroValues) -> (r: Result<String, Error>)
    ensures
        r matches Ok(out) ==> spec_expand(s@, spec_simple_table(*values)) == Ok::<
            Seq<char>,
            ExpandError,
        >(out@),
        r matches Err(e) ==> spec_expand(s@, spec_simple_table(*values)) == Err::<
            Seq<char>,
            ExpandError,
        >((e.spec_kind(), e.spec_message())),
{
    let mut rules: Vec<(String, String)> = Vec::new();
    let mut failing: Vec<(String, ErrorKind)> = Vec::new();
    match values.git.as_ref() {
        Some(g) => rules.push(("git".to_owned(), g.clone())),
        None => failing.push(("git".to_owned(), ErrorKind::GitHashError)),
    }
    rules.push(("date".to_owned(), values.date.clone()));
    rules.push(("date-time".to_owned(), values.date_time.clone()));
    rules.push(("timestamp".to_owned(), values.timestamp.clone()));
    let table = MacroTable { rules, failing, env: Some(clone_pairs(&values.env)) };
    proof {
        assert(table@ =~~= spec_simple_table(*values));
    }
    expand_with(s, &table)
}

/// The fixed lookup table behind `${<metadata-field>}` substitution: every
/// string-typed metadata field under its own name; optional fields appear
/// only when set.
pub open spec fn spec_metadata_pairs(m: Metadata) -> Seq<(Seq<char>, Seq<char>)> {
    seq![
        ("name"@, m.name@),
        ("product_name"@, m.product_name@),
        ("app_id"@, m.app_id@),
        ("description"@, m.description@),
        ("homepage"@, m.homepage@),
        ("author"@, m.author@),
    ] + (match m.copyright {
        Some(c) => seq![("copyright"@, c@)],
        None => Seq::empty(),
    }) + (match m.company {
        Some(c) => seq![("company"@, c@)],
        None => Seq::empty(),
    }) + seq![("version"@, m.version@), ("build_id"@, m.build_id@), ("license"@, m.license@)]
        + (match m.license_file {
        Some(c) => seq![("license_file"@, c@)],
        None => Seq::empty(),
    }) + seq![("workdir"@, m.workdir@), ("src_dir"@, m.src_dir@)]
}

fn metadata_pairs(m: &Metadata) -> (r: Vec<(String, String)>)
    ensures
        spec_pairs(r@) == spec_metadata_pairs(*m),
{
    let mut out: Vec<(String, String)> = Vec::new();
    out.push(("name".to_owned(), m.name.clone()));
    out.push(("product_name".to_owned(), m.product_name.clone()));
    out.push(("app_id".to_owned(), m.app_id.clone()));
    out.push(("description".to_owned(), m.description.clone()));
    out.push(("homepage".to_owned(), m.homepage.clone()));
    out.push(("author".to_owned(), m.author.clone()));
    if let Some(c) = m.copyright.as_ref() {
        out.push(("copyright".to_owned(), c.clone()));
    }
    if let Some(c) = m.company.as_ref() {
        out.push(("company".to_owned(), c.clone()));
    }
    out.push(("version".to_owned(), m.version.clone()));
    out.push(("build_id".to_owned(), m.build_id.clone()));
    out.push(("license".to_owned(), m.license.clone()));
    if let Some(c) = m.license_file.as_ref() {
        out.push(("license_file".to_owned(), c.clone()));
    }
    out.push(("workdir".to_owned(), m.workdir.clone()));
    out.push(("src_dir".to_owned(), m.src_dir.clone()));
    proof {
        assert(spec_pairs(out@) =~~= spec_metadata_pairs(*m));
    }
    out
}

/// The context pass's resolution table: the target's extension, the
/// architecture's display name, then the metadata fields. No token fails
/// in this pass, and `env.` tokens are not recognized.
pub open spec fn spec_context_table(m: Metadata, arch: Arch, target: PlatformTarget) -> MacroTableV {
    MacroTableV {
        rules: seq![("ext"@, target.spec_extension()), ("arch"@, arch.spec_name())]
            + spec_metadata_pairs(m),
        failing: Seq::empty(),
        env: None,
    }
}

/// The full expansion used for artifact file names: the simple pass
/// first, then the context pass over its output, so that a simple token
/// may stand inside a value that feeds a context substitution.
pub fn expand_file_macro(
    s: &str,
    values: &SimpleMacroValues,
    meta: &Metadata,
    arch: Arch,
    target: PlatformTarget,
) -> (r: Result<String, Error>)
    ensures
        ({
            let st = spec_simple_table(*values);
            let ct = spec_context_table(*meta, arch, target);
            match spec_expand(s@, st) {
                Err(p) => r matches Err(e) && e.spec_kind() == p.0 && e.spec_message() == p.1,
                Ok(mid) => match spec_expand(mid, ct) {
                    Err(p) => r matches Err(e) && e.spec_kind() == p.0 && e.spec_message() == p.1,
                    Ok(fin) => r matches Ok(out) && out@ == fin,
                },
            }
        }),
{
    let mid = match expand_file_macro_simple(s, values) {
        Ok(mid) => mid,
        Err(e) => return Err(e),
    };
    let mut rules: Vec<(String, String)> = Vec::new();
    rules.push(("ext".to_owned(), target.extension().to_owned()));
    rules.push(("arch".to_owned(), arch.name().to_owned()));
    let mut meta_rules = metadata_pairs(meta);
    rules.append(&mut meta_rules);
    let table = MacroTable { rules, failing: Vec::new(), env: None };
    proof {
        assert(table@ =~~= spec_context_table(*meta, arch, target));
    }
    expand_with(mid.as_str(), &table)
}

/// Looks an environment variable up in the given bindings; an unbound
/// name is an error, as a `${env.NAME}` token for it would be.
pub fn get_env(name: &str, vars: &Vec<(String, String)>) -> (r: Result<String, Error>)
    ensures
        match r {
            Ok(v) => spec_assoc(spec_pairs(vars@), name@, 0) == Some(v@),
            Err(e) => spec_assoc(spec_pairs(vars@), name@, 0) is None && e.spec_kind()
                == ErrorKind::EnvironmentNotSetError && e.spec_message() == name@,
        },
{
    match assoc_lookup(vars, name) {
        Some(v) => Ok(v),
        None => Err(
            Error::from_string(ErrorKind::EnvironmentNotSetError, name.to_owned()),
        ),
    }
}

/// Relies on chrono's Local::now with its Datelike and Timelike
/// accessors: the local calendar date and clock time as plain values —
/// (year, month, day, hour, minute, second). The values depend on the
/// clock; the accessors' documented ranges are month 1 to 12, day 1 to
/// 31, hour below 24, minute below 60 and second below 60.
#[verifier::external_body]
fn local_clock() -> (r: (i64, u32, u32, u32, u32, u32))
    ensures
        1 <= r.1 <= 12,
        1 <= r.2 <= 31,
        r.3 < 24,
        r.4 < 60,
        r.5 < 60,
{
    let now = chrono::Local::now();
    (
        chrono::Datelike::year(&now) as i64,
        chrono::Datelike::month(&now),
        chrono::Datelike::day(&now),
        chrono::Timelike::hour(&now),
        chrono::Timelike::minute(&now),
        chrono::Timelike::second(&now),
    )
}

/// Relies on chrono's Local::now: Unix epoch seconds. The value depends
/// on the clock; nothing is claimed of it.
#[verifier::external_body]
fn unix_time() -> (t: i64) {
    chrono::Local::now().timestamp()
}

/// `n` in decimal, zero-padded on the left to at least two digits.
pub open spec fn spec_pad2(n: nat) -> Seq<char> {
    if n < 10 {
        "0"@ + spec_dec(n)
    } else {
        spec_dec(n)
    }
}

/// `n` in decimal, zero-padded on the left to at least four digits.
pub open spec fn spec_pad4(n: nat) -> Seq<char> {
    if n < 10 {
        "000"@ + spec_dec(n)
    } else if n < 100 {
        "00"@ + spec_dec(n)
    } else if n < 1000 {
        "0"@ + spec_dec(n)
    } else {
        spec_dec(n)
    }
}

/// A calendar year as the date strings spell it: four digits, zero-padded,
/// with a leading minus sign before the common era.
pub open spec fn spec_year(y: int) -> Seq<char> {
    if y < 0 {
        seq!['-'] + spec_pad4((-y) as nat)
    } else {
        spec_pad4(y as nat)
    }
}

/// The calendar date as `YYYYMMDD`.
pub open spec fn spec_date(y: int, m: nat, d: nat) -> Seq<char> {
    spec_year(y) + spec_pad2(m) + spec_pad2(d)
}

/// The calendar date and clock time as `YYYYMMDDHHMMSS`.
pub open spec fn spec_date_time(y: int, m: nat, d: nat, h: nat, mi: nat, sec: nat) -> Seq<char> {
    spec_date(y, m, d) + spec_pad2(h) + spec_pad2(mi) + spec_pad2(sec)
}

/// A signed integer in decimal.
pub open spec fn spec_signed_dec(t: int) -> Seq<char> {
    if t < 0 {
        seq!['-'] + spec_dec((-t) as nat)
    } else {
        spec_dec(t as nat)
    }
}

fn pad2(n: u32) -> (s: String)
    ensures
        s@ == spec_pad2(n as nat),
{
    if n < 10 {
        let mut s = "0".to_owned();
        let digits = u64_to_string(n as u64);
        s.append(digits.as_str());
        s
    } else {
        u64_to_string(n as u64)
    }
}

fn pad4(n: u64) -> (s: String)
    ensures
        s@ == spec_pad4(n as nat),
{
    let prefix: &'static str = if n < 10 {
        "000"
    } else if n < 100 {
        "00"
    } else if n < 1000 {
        "0"
    } else {
        ""
    };
    let mut s = prefix.to_owned();
    let digits = u64_to_string(n);
    s.append(digits.as_str());
    proof {
        reveal_strlit("");
        assert(""@ =~= Seq::<char>::empty());
        assert(Seq::<char>::empty() + spec_dec(n as nat) =~= spec_dec(n as nat));
    }
    s
}

/// Renders a calendar date as `YYYYMMDD`: the zero-padded year (with a
/// minus sign before the common era), month and day.
pub fn format_date(y: i64, m: u32, d: u32) -> (s: String)
    ensures
        s@ == spec_date(y as int, m as nat, d as nat),
{
    let mut s = format_year(y);
    let mm = pad2(m);
    s.append(mm.as_str());
    let dd = pad2(d);
    s.append(dd.as_str());
    s
}

/// Renders a date and time as `YYYYMMDDHHMMSS`.
pub fn format_date_time(y: i64, m: u32, d: u32, h: u32, mi: u32, sec: u32) -> (s: String)
    ensures
        s@ == spec_date_time(y as int, m as nat, d as nat, h as nat, mi as nat, sec as nat),
{
    let mut s = format_date(y, m, d);
    let hh = pad2(h);
    s.append(hh.as_str());
    let mmi = pad2(mi);
    s.append(mmi.as_str());
    let ss = pad2(sec);
    s.append(ss.as_str());
    s
}

fn format_year(y: i64) -> (s: String)
    ensures
        s@ == spec_year(y as int),
{
    if y < 0 {
        let mag: u64 = (-(y + 1)) as u64 + 1;
        proof {
            assert(mag == -(y as int));
        }
        let mut s = "-".to_owned();
        let digits = pad4(mag);
        s.append(digits.as_str());
        proof {
            reveal_strlit("-");
            assert("-"@ =~= seq!['-']);
        }
        s
    } else {
        pad4(y as u64)
    }
}

/// Renders a signed integer in decimal.
pub fn format_signed(t: i64) -> (s: String)
    ensures
        s@ == spec_signed_dec(t as int),
{
    if t < 0 {
        let mag: u64 = (-(t + 1)) as u64 + 1;
        proof {
            assert(mag == -(t as int));
        }
        let mut s = "-".to_owned();
        let digits = u64_to_string(mag);
        s.append(digits.as_str());
        proof {
            reveal_strlit("-");
            assert("-"@ =~= seq!['-']);
        }
        s
    } else {
        u64_to_string(t as u64)
    }
}

/// The local calendar date, `YYYYMMDD`: some date the clock reported,
/// within the accessors' documented field ranges, rendered by the
/// verified formatter.
pub fn get_date() -> (r: String)
    ensures
        exists|y: int, m: nat, d: nat|
            1 <= m <= 12 && 1 <= d <= 31 && r@ == #[trigger] spec_date(y, m, d),
{
    let (y, m, d, _h, _mi, _sec) = local_clock();
    let s = format_date(y, m, d);
    proof {
        assert(s@ == spec_date(y as int, m as nat, d as nat));
    }
    s
}

/// The local date and time, `YYYYMMDDHHMMSS`, rendered by the verified
/// formatter from the clock's plain values.
pub fn get_date_time() -> (r: String)
    ensures
        exists|y: int, m: nat, d: nat, h: nat, mi: nat, sec: nat|
            1 <= m <= 12 && 1 <= d <= 31 && h < 24 && mi < 60 && sec < 60 && r@
                == #[trigger] spec_date_time(y, m, d, h, mi, sec),
{
    let (y, m, d, h, mi, sec) = local_clock();
    let s = format_date_time(y, m, d, h, mi, sec);
    proof {
        assert(s@ == spec_date_time(
            y as int,
            m as nat,
            d as nat,
            h as nat,
            mi as nat,
            sec as nat,
        ));
    }
    s
}

/// Unix epoch seconds in decimal, rendered by the verified formatter from
/// the clock's plain value.
pub fn get_timestamp() -> (r: String)
    ensures
        exists|t: int| r@ == #[trigger] spec_signed_dec(t),
{
    let t = unix_time();
    let s = format_signed(t);
    proof {
        assert(s@ == spec_signed_dec(t as int));
    }
    s
}

/// Unix epoch seconds, clamped at zero, for timestamp fields that cannot
/// go below the epoch.
pub fn get_timestamp_secs() -> (r: u64) {
    let t = unix_time();
    if t < 0 {
        0
    } else {
        t as u64
    }
}

/// A date string for a four-digit year is exactly eight characters.
pub proof fn lemma_date_len(y: int, m: nat, d: nat)
    requires
        1000 <= y <= 9999,
        m <= 99,
        d <= 99,
    ensures
        spec_date(y, m, d).len() == 8,
{
    reveal_strlit("0");
    assert("0"@.len() == 1);
    crate::text::lemma_dec_len(y as nat);
    crate::text::lemma_dec_len(m);
    crate::text::lemma_dec_len(d);
}

/// A date-time string for a four-digit year is exactly fourteen
/// characters.
pub proof fn lemma_date_time_len(y: int, m: nat, d: nat, h: nat, mi: nat, sec: nat)
    requires
        1000 <= y <= 9999,
        m <= 99,
        d <= 99,
        h <= 99,
        mi <= 99,
        sec <= 99,
    ensures
        spec_date_time(y, m, d, h, mi, sec).len() == 14,
{
    reveal_strlit("0");
    assert("0"@.len() == 1);
    lemma_date_len(y, m, d);
    crate::text::lemma_dec_len(h);
    crate::text::lemma_dec_len(mi);
    crate::text::lemma_dec_len(sec);
}

/// Expanding a string without any token start (no `${` anywhere) returns
/// it unchanged, whatever the table: expansion of an already-fully-
/// resolved string is a no-op.
pub proof fn lemma_expand_fully_resolved(s: Seq<char>, t: MacroTableV)
    requires
        forall|j: int| 0 <= j < s.len() - 1 ==> !(#[trigger] s[j] == '$' && s[j + 1] == '{'),
    ensures
        spec_expand(s, t) == Ok::<Seq<char>, ExpandError>(s),
{
    lemma_expand_verbatim(s, t, 0, Seq::empty());
    assert(Seq::<char>::empty() + s.subrange(0, s.len() as int) =~= s);
}

/// From any position of a string without a token start, expansion copies
/// the rest verbatim.
proof fn lemma_expand_verbatim(s: Seq<char>, t: MacroTableV, i: int, acc: Seq<char>)
    requires
        0 <= i <= s.len(),
        forall|j: int| 0 <= j < s.len() - 1 ==> !(#[trigger] s[j] == '$' && s[j + 1] == '{'),
    ensures
        spec_expand_from(s, t, i, acc) == Ok::<Seq<char>, ExpandError>(
            acc + s.subrange(i, s.len() as int),
        ),
    decreases s.len() - i,
{
    if i >= s.len() {
        assert(acc + s.subrange(i, s.len() as int) =~= acc);
    } else {
        lemma_expand_verbatim(s, t, i + 1, acc + seq![s[i]]);
        assert(acc + seq![s[i]] + s.subrange(i + 1, s.len() as int) =~= acc + s.subrange(
            i,
            s.len() as int,
        ));
    }
}

/// A successful expansion only ever appends: what was produced up to any
/// position stays a prefix of the final output.
proof fn lemma_expand_prefix(s: Seq<char>, t: MacroTableV, i: int, acc: Seq<char>)
    requires
        spec_expand_from(s, t, i, acc) is Ok,
    ensures
        spec_expand_from(s, t, i, acc)->Ok_0.len() >= acc.len(),
        spec_expand_from(s, t, i, acc)->Ok_0.subrange(0, acc.len() as int) == acc,
    decreases s.len() - i,
{
    if i < 0 || i >= s.len() {
        assert(acc.subrange(0, acc.len() as int) =~= acc);
    } else if s[i] == '$' && i + 1 < s.len() && s[i + 1] == '{' {
        let e = i + 2 + spec_token_len(s, i + 2);
        if e < s.len() && s[e] == '}' && e > i + 2 {
            match spec_resolve(t, s.subrange(i + 2, e)) {
                SpecResolution::Resolved(v) => {
                    lemma_expand_prefix(s, t, e + 1, acc + v);
                    let res = spec_expand_from(s, t, i, acc)->Ok_0;
                    assert(res.subrange(0, acc.len() as int) =~= (acc + v).subrange(
                        0,
                        (acc + v).len() as int,
                    ).subrange(0, acc.len() as int));
                    assert(res.subrange(0, acc.len() as int) =~= acc);
                },
                SpecResolution::Failed(_) => {},
                SpecResolution::Verbatim => {
                    let v = s.subrange(i, e + 1);
                    lemma_expand_prefix(s, t, e + 1, acc + v);
                    let res = spec_expand_from(s, t, i, acc)->Ok_0;
                    assert(res.subrange(0, acc.len() as int) =~= acc);
                },
            }
        } else {
            lemma_expand_prefix(s, t, i + 1, acc + seq![s[i]]);
            let res = spec_expand_from(s, t, i, acc)->Ok_0;
            assert(res.subrange(0, acc.len() as int) =~= acc);
        }
    } else {
        lemma_expand_prefix(s, t, i + 1, acc + seq![s[i]]);
        let res = spec_expand_from(s, t, i, acc)->Ok_0;
        assert(res.subrange(0, acc.len() as int) =~= acc);
    }
}

/// The pattern `pat` stands in `s` at position `q`.
pub open spec fn contains_at(s: Seq<char>, q: int, pat: Seq<char>) -> bool {
    0 <= q && q + pat.len() <= s.len() && s.subrange(q, q + pat.len() as int) == pat
}

/// The literal text of a `${env.NAME}` token.
pub open spec fn spec_env_token(x: Seq<char>) -> Seq<char> {
    "${env."@ + x + "}"@
}

/// Every `${` in the template opens a well-formed token: a non-empty run
/// of token characters closed by `}`.
pub open spec fn spec_closed_at(s: Seq<char>, j: int) -> bool {
    let e = j + 2 + spec_token_len(s, j + 2);
    e < s.len() && s[e] == '}' && e > j + 2
}

pub open spec fn spec_well_formed_input(s: Seq<char>) -> bool {
    forall|j: int|
        0 <= j < s.len() - 1 && #[trigger] s[j] == '$' && s[j + 1] == '{' ==> spec_closed_at(s, j)
}

/// A replacement value that cannot splice new token text together with
/// its surroundings: non-empty, and free of `$`, `{` and `}`.
pub open spec fn spec_hygienic_value(v: Seq<char>) -> bool {
    v.len() > 0 && forall|j: int|
        0 <= j < v.len() ==> #[trigger] v[j] != '$' && v[j] != '{' && v[j] != '}'
}

/// Every value the table can substitute is hygienic.
pub open spec fn spec_hygienic_table(t: MacroTableV) -> bool {
    &&& forall|k: int| 0 <= k < t.rules.len() ==> spec_hygienic_value(#[trigger] t.rules[k].1)
    &&& t.env matches Some(env) ==> forall|k: int|
        0 <= k < env.len() ==> spec_hygienic_value(#[trigger] env[k].1)
}

/// A `${env.NAME}` token stands at position `p`: the token start, the
/// `env.` head, a non-empty all-word-character name, and the closing
/// brace.
pub open spec fn spec_env_token_at(s: Seq<char>, p: int, x: Seq<char>) -> bool {
    &&& 0 <= p
    &&& p + 7 + x.len() <= s.len()
    &&& s[p] == '$'
    &&& s[p + 1] == '{'
    &&& s.subrange(p + 2, p + 6) == "env."@
    &&& s.subrange(p + 6, p + 6 + x.len() as int) == x
    &&& s[p + 6 + x.len() as int] == '}'
    &&& x.len() > 0
    &&& forall|j: int| 0 <= j < x.len() ==> is_word_char(x[j])
}

/// Wherever a `${env.NAME}` token stands in the input and `NAME` is bound
/// to `v`, a successful expansion's output contains `v` verbatim.
pub proof fn lemma_env_value_in_output(s: Seq<char>, t: MacroTableV, p: int, x: Seq<char>, v: Seq<char>)
    requires
        spec_env_token_at(s, p, x),
        t.env is Some,
        spec_assoc(t.env->Some_0, x, 0) == Some(v),
        spec_expand(s, t) is Ok,
    ensures
        exists|a: Seq<char>, b: Seq<char>| spec_expand(s, t)->Ok_0 == a + v + b,
{
    lemma_env_value_from(s, t, 0, Seq::empty(), p, x, v);
}

proof fn lemma_env_value_from(
    s: Seq<char>,
    t: MacroTableV,
    i: int,
    acc: Seq<char>,
    p: int,
    x: Seq<char>,
    v: Seq<char>,
)
    requires
        0 <= i <= p,
        spec_env_token_at(s, p, x),
        t.env is Some,
        spec_assoc(t.env->Some_0, x, 0) == Some(v),
        spec_expand_from(s, t, i, acc) is Ok,
    ensures
        exists|a: Seq<char>, b: Seq<char>| spec_expand_from(s, t, i, acc)->Ok_0 == a + v + b,
    decreases s.len() - i,
{
    reveal_strlit("env.");
    assert("env."@.len() == 4);
    let res = spec_expand_from(s, t, i, acc)->Ok_0;
    if i == p {
        // The walk stands exactly at the token: it resolves to `v`.
        let e = i + 2 + spec_token_len(s, i + 2);
        let close = p + 6 + x.len() as int;
        assert forall|j: int| i + 2 <= j < close implies is_token_char(s[j]) by {
            if j < p + 6 {
                assert(s.subrange(p + 2, p + 6)[j - p - 2] == s[j]);
                assert(is_token_char("env."@[j - p - 2]));
            } else {
                assert(s.subrange(p + 6, close)[j - p - 6] == s[j]);
                assert(is_word_char(x[j - p - 6]));
            }
        }
        assert(!is_token_char(s[close]));
        lemma_token_len_range(s, i + 2, close);
        assert(e == close);
        let name = s.subrange(i + 2, e);
        assert(name.subrange(0, 4) =~= s.subrange(p + 2, p + 6));
        assert(name.subrange(4, name.len() as int) =~= s.subrange(p + 6, close));
        assert(name.len() == 4 + x.len());
        assert forall|j: int| 4 <= j < name.len() implies is_word_char(name[j]) by {
            assert(name[j] == x[j - 4]);
        }
        assert(spec_resolve(t, name) == SpecResolution::Resolved(v));
        lemma_expand_prefix(s, t, e + 1, acc + v);
        let deep = spec_expand_from(s, t, e + 1, acc + v)->Ok_0;
        assert(res == deep);
        let b = deep.subrange((acc + v).len() as int, deep.len() as int);
        assert(deep =~= deep.subrange(0, (acc + v).len() as int) + b);
        assert(res == acc + v + b);
    } else {
        // The walk stands before the token; whatever step it takes next
        // ends at or before `p`, because no token span can cover the
        // `$` at `p`.
        if s[i] == '$' && i + 1 < s.len() && s[i + 1] == '{' {
            let e = i + 2 + spec_token_len(s, i + 2);
            if e < s.len() && s[e] == '}' && e > i + 2 {
                lemma_token_span_chars(s, i + 2);
                assert(!is_token_char('$'));
                assert(p != i + 1 && p != e);
                assert(!(i + 2 <= p < e));
                assert(e + 1 <= p);
                match spec_resolve(t, s.subrange(i + 2, e)) {
                    SpecResolution::Resolved(w) => {
                        lemma_env_value_from(s, t, e + 1, acc + w, p, x, v);
                    },
                    SpecResolution::Failed(_) => {},
                    SpecResolution::Verbatim => {
                        lemma_env_value_from(s, t, e + 1, acc + s.subrange(i, e + 1), p, x, v);
                    },
                }
            } else {
                lemma_env_value_from(s, t, i + 1, acc + seq![s[i]], p, x, v);
            }
        } else {
            lemma_env_value_from(s, t, i + 1, acc + seq![s[i]], p, x, v);
        }
    }
}

/// A binding that an association lookup finds is one of the list's own
/// values.
proof fn lemma_assoc_member(pairs: Seq<(Seq<char>, Seq<char>)>, name: Seq<char>, i: int)
    requires
        spec_assoc(pairs, name, i) is Some,
    ensures
        exists|k: int|
            0 <= k < pairs.len() && #[trigger] pairs[k].1 == spec_assoc(pairs, name, i)->Some_0,
    decreases pairs.len() - i,
{
    if 0 <= i < pairs.len() {
        if pairs[i].0 == name {
            assert(pairs[i].1 == spec_assoc(pairs, name, i)->Some_0);
        } else {
            lemma_assoc_member(pairs, name, i + 1);
        }
    }
}

/// A pattern standing in `a` still stands there after anything is
/// appended.
proof fn lemma_contains_at_append(a: Seq<char>, b: Seq<char>, q: int, pat: Seq<char>)
    requires
        contains_at(a, q, pat),
    ensures
        contains_at(a + b, q, pat),
{
    assert((a + b).subrange(q, q + pat.len() as int) =~= a.subrange(q, q + pat.len() as int));
}

/// Every `${` in `acc` opens a complete verbatim-copied token: a closed
/// run of token characters that the table leaves alone.
spec fn spec_brace_guard(acc: Seq<char>, t: MacroTableV) -> bool {
    forall|q: int|
        #[trigger] contains_at(acc, q, "${"@) ==> exists|w: Seq<char>|
            w.len() > 0 && (forall|j: int| 0 <= j < w.len() ==> is_token_char(#[trigger] w[j]))
                && contains_at(acc, q, "${"@ + w + "}"@) && spec_resolve(t, w)
                == SpecResolution::Verbatim
}

/// When the walk stands at `i` and the output ends with `$`, the next
/// input character is not `{`.
spec fn spec_dollar_guard(acc: Seq<char>, s: Seq<char>, i: int) -> bool {
    acc.len() > 0 && acc.last() == '$' ==> (i >= s.len() || s[i] != '{')
}

/// Appending a piece that holds neither `$` nor `{` preserves the brace
/// guard, provided the guard cannot be broken at the boundary.
proof fn lemma_brace_guard_append(acc: Seq<char>, piece: Seq<char>, t: MacroTableV)
    requires
        spec_brace_guard(acc, t),
        forall|j: int| 0 <= j < piece.len() ==> #[trigger] piece[j] != '$' && piece[j] != '{',
        acc.len() > 0 && acc.last() == '$' ==> piece.len() == 0 || piece[0] != '{',
    ensures
        spec_brace_guard(acc + piece, t),
{
    reveal_strlit("${");
    assert("${"@.len() == 2 && "${"@[0] == '$' && "${"@[1] == '{');
    let out = acc + piece;
    assert forall|q: int| #[trigger] contains_at(out, q, "${"@) implies exists|w: Seq<char>|
        w.len() > 0 && (forall|j: int| 0 <= j < w.len() ==> is_token_char(#[trigger] w[j]))
            && contains_at(out, q, "${"@ + w + "}"@) && spec_resolve(t, w)
            == SpecResolution::Verbatim by {
        assert(out[q] == '$' && out[q + 1] == '{');
        if q + 2 <= acc.len() {
            assert(acc.subrange(q, q + 2) =~= "${"@);
            assert(contains_at(acc, q, "${"@));
            let w = choose|w: Seq<char>|
                w.len() > 0 && (forall|j: int| 0 <= j < w.len() ==> is_token_char(#[trigger] w[j]))
                    && contains_at(acc, q, "${"@ + w + "}"@) && spec_resolve(t, w)
                    == SpecResolution::Verbatim;
            lemma_contains_at_append(acc, piece, q, "${"@ + w + "}"@);
        } else if q >= acc.len() {
            assert(piece[q - acc.len()] == '$');
            assert(false);
        } else {
            // The `$` is the last character of `acc`, the `{` the first
            // of the piece: the boundary premise excludes this.
            assert(q == acc.len() - 1);
            assert(acc.last() == '$');
            assert(piece[0] == '{');
            assert(false);
        }
    }
}

/// One expansion walk keeps the brace guard: under a hygienic table and a
/// well-formed template, every `${` the output ever holds opens a
/// complete verbatim token.
proof fn lemma_expand_brace_guard(s: Seq<char>, t: MacroTableV, i: int, acc: Seq<char>)
    requires
        0 <= i <= s.len(),
        spec_well_formed_input(s),
        spec_hygienic_table(t),
        spec_expand_from(s, t, i, acc) is Ok,
        spec_brace_guard(acc, t),
        spec_dollar_guard(acc, s, i),
    ensures
        spec_brace_guard(spec_expand_from(s, t, i, acc)->Ok_0, t),
    decreases s.len() - i,
{
    reveal_strlit("${");
    reveal_strlit("}");
    assert("${"@.len() == 2 && "${"@[0] == '$' && "${"@[1] == '{');
    assert("}"@.len() == 1 && "}"@[0] == '}');
    if i >= s.len() {
    } else if s[i] == '$' && i + 1 < s.len() && s[i + 1] == '{' {
        let e = i + 2 + spec_token_len(s, i + 2);
        assert(spec_closed_at(s, i));
        assert(e < s.len() && s[e] == '}' && e > i + 2);
        let name = s.subrange(i + 2, e);
        lemma_token_span_chars(s, i + 2);
        match spec_resolve(t, name) {
            SpecResolution::Resolved(v) => {
                // The value came out of the table, so it is hygienic.
                assert(spec_hygienic_value(v)) by {
                    if t.env is Some && name.len() > 4 && name.subrange(0, 4) == "env."@ && (
                    forall|j: int| 4 <= j < name.len() ==> is_word_char(name[j])) {
                        lemma_assoc_member(
                            t.env->Some_0,
                            name.subrange(4, name.len() as int),
                            0,
                        );
                    } else {
                        lemma_assoc_member(t.rules, name, 0);
                    }
                }
                lemma_brace_guard_append(acc, v, t);
                assert(spec_dollar_guard(acc + v, s, e + 1)) by {
                    assert((acc + v).last() == v.last());
                }
                lemma_expand_brace_guard(s, t, e + 1, acc + v);
            },
            SpecResolution::Failed(_) => {},
            SpecResolution::Verbatim => {
                let piece = s.subrange(i, e + 1);
                let out = acc + piece;
                assert(piece.len() == e + 1 - i);
                assert(piece[0] == '$' && piece[1] == '{');
                assert(forall|j: int| 2 <= j < piece.len() - 1 ==> is_token_char(#[trigger] piece[j]));
                assert(piece.last() == '}');
                assert(spec_brace_guard(out, t)) by {
                    assert forall|q: int| #[trigger] contains_at(out, q, "${"@) implies exists|
                        w: Seq<char>,
                    |
                        w.len() > 0 && (forall|j: int|
                            0 <= j < w.len() ==> is_token_char(#[trigger] w[j])) && contains_at(
                            out,
                            q,
                            "${"@ + w + "}"@,
                        ) && spec_resolve(t, w) == SpecResolution::Verbatim by {
                        assert(out[q] == '$' && out[q + 1] == '{');
                        if q + 2 <= acc.len() {
                            assert(acc.subrange(q, q + 2) =~= "${"@);
                            assert(contains_at(acc, q, "${"@));
                            let w = choose|w: Seq<char>|
                                w.len() > 0 && (forall|j: int|
                                    0 <= j < w.len() ==> is_token_char(#[trigger] w[j]))
                                    && contains_at(acc, q, "${"@ + w + "}"@) && spec_resolve(t, w)
                                    == SpecResolution::Verbatim;
                            lemma_contains_at_append(acc, piece, q, "${"@ + w + "}"@);
                        } else if q == acc.len() {
                            // The freshly copied token itself.
                            assert(contains_at(out, q, "${"@ + name + "}"@)) by {
                                assert(out.subrange(q, q + piece.len() as int) =~= piece);
                                let full = "${"@ + name + "}"@;
                                assert(full.len() == piece.len());
                                assert(full[0] == '$' && full[1] == '{');
                                assert(forall|j: int|
                                    2 <= j < full.len() - 1 ==> #[trigger] full[j] == name[j - 2]);
                                assert(full[full.len() - 1] == '}');
                                assert(forall|j: int|
                                    0 <= j < piece.len() ==> #[trigger] piece[j] == s[i + j]);
                                assert(piece =~= full);
                            }
                            assert(name.len() > 0);
                            assert(forall|j: int|
                                0 <= j < name.len() ==> is_token_char(#[trigger] name[j]));
                        } else if q > acc.len() {
                            // No other `$` stands inside the copied token.
                            let m = q - acc.len();
                            assert(piece[m] == '$');
                            assert(m != 0);
                            assert(!is_token_char('$'));
                            assert(m < piece.len() - 1 ==> is_token_char(piece[m]));
                            assert(false);
                        } else {
                            // The boundary: `acc` would have to end with
                            // `$`, but the walk stands at a `{` only when
                            // it does not.
                            assert(q == acc.len() - 1);
                            assert(acc.last() == '$');
                            assert(piece[0] == '{');
                            assert(false);
                        }
                    }
                }
                assert(spec_dollar_guard(out, s, e + 1)) by {
                    assert(out.last() == '}');
                }
                lemma_expand_brace_guard(s, t, e + 1, out);
            },
        }
    } else {
        let c = s[i];
        let out = acc + seq![c];
        assert(spec_brace_guard(out, t)) by {
            assert forall|q: int| #[trigger] contains_at(out, q, "${"@) implies exists|
                w: Seq<char>,
            |
                w.len() > 0 && (forall|j: int| 0 <= j < w.len() ==> is_token_char(#[trigger] w[j]))
                    && contains_at(out, q, "${"@ + w + "}"@) && spec_resolve(t, w)
                    == SpecResolution::Verbatim by {
                assert(out[q] == '$' && out[q + 1] == '{');
                if q + 2 <= acc.len() {
                    assert(acc.subrange(q, q + 2) =~= "${"@);
                    assert(contains_at(acc, q, "${"@));
                    let w = choose|w: Seq<char>|
                        w.len() > 0 && (forall|j: int|
                            0 <= j < w.len() ==> is_token_char(#[trigger] w[j])) && contains_at(
                            acc,
                            q,
                            "${"@ + w + "}"@,
                        ) && spec_resolve(t, w) == SpecResolution::Verbatim;
                    lemma_contains_at_append(acc, seq![c], q, "${"@ + w + "}"@);
                } else {
                    // The new `{` would need `acc` to end with `$`; the
                    // dollar guard says it does not, and a lone new `$`
                    // cannot complete a `${` by itself.
                    assert(q == acc.len() - 1);
                    assert(acc.last() == '$' && c == '{');
                    assert(s[i] != '{');
                    assert(false);
                }
            }
        }
        assert(spec_dollar_guard(out, s, i + 1)) by {
            if c == '$' {
                assert(!(i + 1 < s.len() && s[i + 1] == '{'));
            }
        }
        lemma_expand_brace_guard(s, t, i + 1, out);
    }
}

/// Under a hygienic table and a template whose every `${` opens a
/// well-formed token, a successful expansion leaves no literal
/// `${env.NAME}` token in its output, for any `NAME` that is bound.
pub proof fn lemma_no_env_token_remains(s: Seq<char>, t: MacroTableV, x: Seq<char>)
    requires
        spec_well_formed_input(s),
        spec_hygienic_table(t),
        t.env is Some,
        x.len() > 0,
        forall|j: int| 0 <= j < x.len() ==> is_word_char(#[trigger] x[j]),
        spec_assoc(t.env->Some_0, x, 0) is Some,
        spec_expand(s, t) is Ok,
    ensures
        forall|q: int| !contains_at(#[trigger] spec_expand(s, t)->Ok_0, q, spec_env_token(x)),
{
    reveal_strlit("${");
    reveal_strlit("${env.");
    reveal_strlit("env.");
    reveal_strlit("}");
    assert("${"@.len() == 2 && "${"@[0] == '$' && "${"@[1] == '{');
    assert("${env."@.len() == 6);
    assert("${env."@[0] == '$' && "${env."@[1] == '{' && "${env."@[2] == 'e' && "${env."@[3]
        == 'n' && "${env."@[4] == 'v' && "${env."@[5] == '.');
    assert("env."@.len() == 4);
    assert("env."@[0] == 'e' && "env."@[1] == 'n' && "env."@[2] == 'v' && "env."@[3] == '.');
    assert("}"@.len() == 1 && "}"@[0] == '}');
    assert(spec_brace_guard(Seq::empty(), t)) by {
        assert(forall|q: int| !contains_at(Seq::<char>::empty(), q, "${"@));
    }
    lemma_expand_brace_guard(s, t, 0, Seq::empty());
    let res = spec_expand(s, t)->Ok_0;
    let tok = spec_env_token(x);
    let len = x.len() as int;
    assert forall|q: int| !contains_at(res, q, tok) by {
        if contains_at(res, q, tok) {
            assert forall|m: int| 0 <= m < tok.len() implies res[q + m] == #[trigger] tok[m] by {
                assert(res.subrange(q, q + tok.len() as int)[m] == tok[m]);
            }
            assert(tok[0] == '$' && tok[1] == '{');
            assert(res[q] == '$' && res[q + 1] == '{');
            assert(res.subrange(q, q + 2) =~= "${"@);
            assert(contains_at(res, q, "${"@));
            let w = choose|w: Seq<char>|
                w.len() > 0 && (forall|j: int| 0 <= j < w.len() ==> is_token_char(#[trigger] w[j]))
                    && contains_at(res, q, "${"@ + w + "}"@) && spec_resolve(t, w)
                    == SpecResolution::Verbatim;
            let wl = w.len() as int;
            let wtok = "${"@ + w + "}"@;
            assert forall|m: int| 0 <= m < wl + 3 implies res[q + m] == #[trigger] wtok[m] by {
                assert(res.subrange(q, q + wtok.len() as int)[m] == wtok[m]);
            }
            assert(forall|j: int| 0 <= j < wl ==> #[trigger] wtok[j + 2] == w[j]);
            assert(wtok[wl + 2] == '}');
            // The token characters of `w` run until the first `}`; the
            // occurrence pins that `}` to the end of the token, so `w`
            // is exactly `env.` followed by the name.
            assert(!is_token_char('}'));
            assert(forall|m: int| 2 <= m < 6 ==> tok[m] == "${env."@[m]);
            assert(forall|m: int| 6 <= m < 6 + len ==> tok[m] == x[m - 6]);
            assert(tok[6 + len] == '}');
            if wl + 2 < 6 + len {
                assert(res[q + wl + 2] == '}');
                assert(tok[wl + 2] == '}');
                if wl + 2 < 6 {
                    assert(is_token_char(tok[wl + 2]));
                } else {
                    assert(is_word_char(x[wl + 2 - 6]));
                }
                assert(false);
            }
            if wl + 2 > 6 + len {
                assert(res[q + 6 + len] == '}');
                assert(w[4 + len] == '}');
                assert(is_token_char(w[4 + len]));
                assert(false);
            }
            assert(wl == 4 + len);
            assert forall|j: int| 0 <= j < wl implies #[trigger] w[j] == res[q + 2 + j] by {
                assert(wtok[j + 2] == w[j]);
                assert(res[q + (j + 2)] == wtok[j + 2]);
            }
            assert forall|j: int| 0 <= j < wl implies w[j] == ("env."@ + x)[j] by {
                assert(w[j] == res[q + 2 + j]);
                assert(res[q + (2 + j)] == tok[2 + j]);
                if j < 4 {
                    assert(tok[2 + j] == "${env."@[2 + j]);
                } else {
                    assert(tok[2 + j] == x[j - 4]);
                }
            }
            assert(w =~= "env."@ + x);
            assert(w.subrange(0, 4) =~= "env."@);
            assert(w.subrange(4, wl) =~= x);
            assert(forall|j: int| 4 <= j < wl ==> is_word_char(#[trigger] w[j]));
            assert(spec_resolve(t, w) is Resolved);
            assert(false);
        }
    }
}

} // verus!

