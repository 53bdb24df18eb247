//! Variable interpolation for configuration text.
//!
//! A configuration file may reference variables as `${NAME}` or, with a
//! fallback, `${NAME:-default}`.  A name starts with a letter or an
//! underscore and continues with letters, digits and underscores; a
//! default runs up to the first closing brace.  The text is scanned
//! left to right, each reference replaced by the variable's value or
//! its default; references to unset variables without a default are
//! collected and reported together.  The variable values themselves
//! come from the caller as plain pairs.

use crate::config::ConfigError;
use vstd::prelude::*;

verus! {

/// First character of a variable name.
pub open spec fn is_var_start(c: char) -> bool {
    ('A' <= c && c <= 'Z') || ('a' <= c && c <= 'z') || c == '_'
}

/// Any later character of a variable name.
pub open spec fn is_var_char(c: char) -> bool {
    is_var_start(c) || ('0' <= c && c <= '9')
}

/// Length of the run of name characters starting at `i`.
pub open spec fn var_run_len(s: Seq<char>, i: int) -> nat
    decreases s.len() - i,
{
    if i < 0 || i >= s.len() {
        0
    } else if is_var_char(s[i]) {
        1 + var_run_len(s, i + 1)
    } else {
        0
    }
}

/// Length of the run of characters before the next closing brace
/// starting at `i`.
pub open spec fn brace_run_len(s: Seq<char>, i: int) -> nat
    decreases s.len() - i,
{
    if i < 0 || i >= s.len() {
        0
    } else if s[i] != '}' {
        1 + brace_run_len(s, i + 1)
    } else {
        0
    }
}

/// Where the name of a reference starting at `i` ends.
pub open spec fn name_end(s: Seq<char>, i: int) -> int {
    i + 2 + var_run_len(s, i + 2)
}

/// A variable reference begins at `i`: a dollar and open brace, a
/// non-empty name, then either the closing brace or a default part
/// closed by a brace.
pub open spec fn match_at(s: Seq<char>, i: int) -> bool {
    &&& 0 <= i
    &&& i + 1 < s.len()
    &&& s[i] == '$'
    &&& s[i + 1] == '{'
    &&& var_run_len(s, i + 2) > 0
    &&& is_var_start(s[i + 2])
    &&& {
        let k = name_end(s, i);
        ||| (k < s.len() && s[k] == '}')
        ||| (k + 1 < s.len() && s[k] == ':' && s[k + 1] == '-' && k + 2 + brace_run_len(s, k + 2)
            < s.len())
    }
}

/// Where the reference starting at `i` ends (exclusive).
pub open spec fn match_end(s: Seq<char>, i: int) -> int {
    let k = name_end(s, i);
    if k < s.len() && s[k] == '}' {
        k + 1
    } else {
        k + 2 + brace_run_len(s, k + 2) + 1
    }
}

/// The name referenced at `i`.
pub open spec fn match_name(s: Seq<char>, i: int) -> Seq<char> {
    s.subrange(i + 2, name_end(s, i))
}

/// The default of the reference at `i`, when it has one.
pub open spec fn match_default(s: Seq<char>, i: int) -> Option<Seq<char>> {
    let k = name_end(s, i);
    if k < s.len() && s[k] == '}' {
        None
    } else {
        Some(s.subrange(k + 2, k + 2 + brace_run_len(s, k + 2)))
    }
}

/// The value bound to the first pair carrying this name.
pub open spec fn spec_env_lookup(env: Seq<(String, String)>, name: Seq<char>) -> Option<Seq<char>>
    decreases env.len(),
{
    if env.len() == 0 {
        None
    } else if env[0].0@ == name {
        Some(env[0].1@)
    } else {
        spec_env_lookup(env.drop_first(), name)
    }
}

/// What the reference at `i` becomes: the variable's value, else its
/// default, else — unresolvable — the reference text itself.
pub open spec fn replacement(s: Seq<char>, env: Seq<(String, String)>, i: int) -> Seq<char> {
    match spec_env_lookup(env, match_name(s, i)) {
        Some(v) => v,
        None => match match_default(s, i) {
            Some(d) => d,
            None => s.subrange(i, match_end(s, i)),
        },
    }
}

/// The interpolated text from position `i` on.
pub open spec fn interp_from(s: Seq<char>, env: Seq<(String, String)>, i: int) -> Seq<char>
    decreases s.len() - i,
{
    if i < 0 || i >= s.len() {
        Seq::empty()
    } else if match_at(s, i) {
        replacement(s, env, i) + interp_from(s, env, match_end(s, i))
    } else {
        seq![s[i]] + interp_from(s, env, i + 1)
    }
}

/// The names referenced from position `i` on that have neither a value
/// nor a default, in order of appearance, duplicates kept.
pub open spec fn missing_from(s: Seq<char>, env: Seq<(String, String)>, i: int) -> Seq<Seq<char>>
    decreases s.len() - i,
{
    if i < 0 || i >= s.len() {
        Seq::empty()
    } else if match_at(s, i) {
        let rest = missing_from(s, env, match_end(s, i));
        if spec_env_lookup(env, match_name(s, i)) is None && match_default(s, i) is None {
            seq![match_name(s, i)] + rest
        } else {
            rest
        }
    } else {
        missing_from(s, env, i + 1)
    }
}

fn is_var_start_exec(c: char) -> (r: bool)
    ensures
        r == is_var_start(c),
{
    ('A' <= c && c <= 'Z') || ('a' <= c && c <= 'z') || c == '_'
}

fn is_var_char_exec(c: char) -> (r: bool)
    ensures
        r == is_var_char(c),
{
    is_var_start_exec(c) || ('0' <= c && c <= '9')
}

/// Recognise a variable reference at position `i`; on a match, hand
/// back where the name ends and where the whole reference ends.
fn find_pattern(s: &str, i: usize, n: usize) -> (r: Option<(usize, usize)>)
    requires
        n == s@.len(),
        i < n,
    ensures
        r is Some <==> match_at(s@, i as int),
        r matches Some(p) ==> p.0 == name_end(s@, i as int) && p.1 == match_end(s@, i as int),
{
    if s.get_char(i) != '$' {
        return None;
    }
    if i + 1 >= n {
        return None;
    }
    if s.get_char(i + 1) != '{' {
        return None;
    }
    if i + 2 >= n {
        proof {
            assert(var_run_len(s@, i as int + 2) == 0);
        }
        return None;
    }
    let mut j: usize = i + 2;
    while j < n
        invariant_except_break
            i + 2 <= j <= n,
            n == s@.len(),
            var_run_len(s@, i as int + 2) == (j - (i + 2)) + var_run_len(s@, j as int),
        ensures
            i + 2 <= j <= n,
            n == s@.len(),
            var_run_len(s@, i as int + 2) == j - (i + 2),
        decreases n - j,
    {
        if !is_var_char_exec(s.get_char(j)) {
            proof {
                assert(var_run_len(s@, j as int) == 0);
            }
            break ;
        }
        j = j + 1;
    }
    if j == i + 2 {
        return None;
    }
    if !is_var_start_exec(s.get_char(i + 2)) {
        return None;
    }
    let k = j;
    if k >= n {
        return None;
    }
    if s.get_char(k) == '}' {
        return Some((k, k + 1));
    }
    if k + 1 < n && s.get_char(k) == ':' && s.get_char(k + 1) == '-' {
        let mut m: usize = k + 2;
        while m < n
            invariant_except_break
                k + 2 <= m <= n,
                n == s@.len(),
                brace_run_len(s@, k as int + 2) == (m - (k + 2)) + brace_run_len(s@, m as int),
            ensures
                k + 2 <= m <= n,
                n == s@.len(),
                brace_run_len(s@, k as int + 2) == m - (k + 2),
            decreases n - m,
        {
            if s.get_char(m) == '}' {
                proof {
                    assert(brace_run_len(s@, m as int) == 0);
                }
                break ;
            }
            m = m + 1;
        }
        if m < n {
            return Some((k, m + 1));
        }
        return None;
    }
    None
}

/// The value bound to this name, if any pair carries it.
fn env_lookup(env: &Vec<(String, String)>, name: &str) -> (r: Option<String>)
    ensures
        r is Some <==> spec_env_lookup(env@, name@) is Some,
        r matches Some(v) ==> Some(v@) == spec_env_lookup(env@, name@),
{
    let target = name.to_owned();
    let mut i: usize = 0;
    while i < env.len()
        invariant
            i <= env@.len(),
            target@ == name@,
            forall|j: int| #![auto] 0 <= j < i ==> env@[j].0@ != name@,
        decreases env@.len() - i,
    {
        if env[i].0 == target {
            proof {
                lemma_env_lookup_found(env@, name@, i as int);
            }
            return Some(env[i].1.clone());
        }
        i = i + 1;
    }
    proof {
        lemma_env_lookup_absent(env@, name@);
    }
    None
}

proof fn lemma_env_lookup_found(env: Seq<(String, String)>, name: Seq<char>, i: int)
    requires
        0 <= i < env.len(),
        env[i].0@ == name,
        forall|j: int| #![auto] 0 <= j < i ==> env[j].0@ != name,
    ensures
        spec_env_lookup(env, name) == Some(env[i].1@),
    decreases i,
{
    if i > 0 {
        lemma_env_lookup_found(env.drop_first(), name, i - 1);
    }
}

proof fn lemma_env_lookup_absent(env: Seq<(String, String)>, name: Seq<char>)
    requires
        forall|j: int| #![auto] 0 <= j < env.len() ==> env[j].0@ != name,
    ensures
        spec_env_lookup(env, name) is None,
    decreases env.len(),
{
    if env.len() > 0 {
        lemma_env_lookup_absent(env.drop_first(), name);
    }
}

/// Interpolate every variable reference in `content` using the given
/// bindings.  Succeeds exactly when every reference can be resolved,
/// and then returns the fully substituted text; otherwise reports all
/// unresolvable names in order of appearance.
#[verifier::rlimit(30)]
pub fn interpolate_env_vars(content: &str, env: &Vec<(String, String)>) -> (r: Result<
    String,
    ConfigError,
>)
    ensures
        r is Ok <==> missing_from(content@, env@, 0) == Seq::<Seq<char>>::empty(),
        r matches Ok(out) ==> out@ == interp_from(content@, env@, 0),
        r matches Err(e) ==> (e matches ConfigError::MissingEnvVars { names }
            && names.deep_view() == missing_from(content@, env@, 0) && names@.len() > 0),
{
    let n = content.unicode_len();
    let mut out = String::new();
    let mut missing: Vec<String> = Vec::new();
    let mut i: usize = 0;
    while i < n
        invariant
            i <= n,
            n == content@.len(),
            interp_from(content@, env@, 0) == out@ + interp_from(content@, env@, i as int),
            missing_from(content@, env@, 0) == missing.deep_view() + missing_from(
                content@,
                env@,
                i as int,
            ),
        decreases n - i,
    {
        let ghost pre_out = out@;
        let ghost pre_missing = missing.deep_view();
        match find_pattern(content, i, n) {
            Some((k, end)) => {
                proof {
                    assert(interp_from(content@, env@, i as int) == replacement(
                        content@,
                        env@,
                        i as int,
                    ) + interp_from(content@, env@, match_end(content@, i as int)));
                }
                let name = content.substring_char(i + 2, k);
                match env_lookup(env, name) {
                    Some(v) => {
                        out.append(v.as_str());
                        proof {
                            assert(out@ == pre_out + replacement(content@, env@, i as int));
                            assert(missing_from(content@, env@, i as int) == missing_from(
                                content@,
                                env@,
                                end as int,
                            ));
                        }
                    },
                    None => {
                        if k < n && content.get_char(k) == '}' {
                            // No default: the reference cannot be
                            // resolved; record it and keep the text.
                            missing.push(name.to_owned());
                            let pattern = content.substring_char(i, end);
                            out.append(pattern);
                            proof {
                                assert(match_default(content@, i as int) is None);
                                assert(out@ == pre_out + replacement(content@, env@, i as int));
                                assert(missing.deep_view() =~= pre_missing.push(
                                    match_name(content@, i as int),
                                ));
                                assert(missing_from(content@, env@, i as int) == seq![
                                    match_name(content@, i as int),
                                ] + missing_from(content@, env@, end as int));
                                assert(missing.deep_view() =~= pre_missing + seq![
                                    match_name(content@, i as int),
                                ]);
                            }
                        } else {
                            let default = content.substring_char(k + 2, end - 1);
                            out.append(default);
                            proof {
                                assert(match_default(content@, i as int) matches Some(d) && d
                                    == default@);
                                assert(out@ == pre_out + replacement(content@, env@, i as int));
                                assert(missing_from(content@, env@, i as int) == missing_from(
                                    content@,
                                    env@,
                                    end as int,
                                ));
                            }
                        }
                    },
                }
                proof {
                    assert(interp_from(content@, env@, 0) == out@ + interp_from(
                        content@,
                        env@,
                        end as int,
                    )) by {
                        assert((pre_out + replacement(content@, env@, i as int)) + interp_from(
                            content@,
                            env@,
                            end as int,
                        ) =~= pre_out + (replacement(content@, env@, i as int) + interp_from(
                            content@,
                            env@,
                            end as int,
                        )));
                    }
                    assert(missing_from(content@, env@, 0) == missing.deep_view() + missing_from(
                        content@,
                        env@,
                        end as int,
                    )) by {
                        if spec_env_lookup(env@, match_name(content@, i as int)) is None
                            && match_default(content@, i as int) is None {
                            assert((pre_missing + seq![match_name(content@, i as int)])
                                + missing_from(content@, env@, end as int) =~= pre_missing + (seq![
                                match_name(content@, i as int),
                            ] + missing_from(content@, env@, end as int)));
                        }
                    }
                }
                i = end;
            },
            None => {
                let c = content.substring_char(i, i + 1);
                out.append(c);
                proof {
                    assert(c@ =~= seq![content@[i as int]]);
                    assert(interp_from(content@, env@, i as int) == seq![content@[i as int]]
                        + interp_from(content@, env@, i as int + 1));
                    assert((pre_out + seq![content@[i as int]]) + interp_from(
                        content@,
                        env@,
                        i as int + 1,
                    ) =~= pre_out + (seq![content@[i as int]] + interp_from(
                        content@,
                        env@,
                        i as int + 1,
                    )));
                    assert(missing_from(content@, env@, i as int) == missing_from(
                        content@,
                        env@,
                        i as int + 1,
                    ));
                }
                i = i + 1;
            },
        }
    }
    proof {
        assert(interp_from(content@, env@, n as int) =~= Seq::<char>::empty());
        assert(out@ =~= out@ + Seq::<char>::empty());
        assert(missing_from(content@, env@, n as int) =~= Seq::<Seq<char>>::empty());
        assert(missing.deep_view() =~= missing.deep_view() + Seq::<Seq<char>>::empty());
    }
    if missing.len() == 0 {
        proof {
            assert(missing.deep_view() =~= Seq::<Seq<char>>::empty());
        }
        Ok(out)
    } else {
        proof {
            assert(missing.deep_view().len() == missing@.len());
        }
        Err(ConfigError::MissingEnvVars { names: missing })
    }
}

} // verus!
