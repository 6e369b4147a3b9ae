//! Variable substitution: rewrites `{{name}}` tokens in the URL, headers,
//! params and textual/JSON body of a request description, scanning the
//! supplied variables in order.
//!
//! Substitution is applied to every entry whether or not it is enabled;
//! filtering by the enabled flag happens later, in the wire builder.

use vstd::prelude::*;

use crate::models::KeyValue;
use crate::models::RequestBody;
use crate::models::RequestConfig;
use crate::text::contains_seq;
use crate::text::match_at;
use crate::text::lemma_replaced_untouched;
use crate::text::replace_all;
use crate::text::replaced;

verus! {

/// The literal token that stands for a variable named `key`.
pub open spec fn token_of(key: Seq<char>) -> Seq<char> {
    "{{"@ + key + "}}"@
}

/// One substitution round: every occurrence of `{{key}}` becomes `val`.
pub open spec fn subst_one(s: Seq<char>, key: Seq<char>, val: Seq<char>) -> Seq<char> {
    replaced(s, token_of(key), val)
}

/// All variables applied to a plain text, in the order supplied.
pub open spec fn subst_all(s: Seq<char>, vars: Seq<(String, String)>) -> Seq<char>
    decreases vars.len(),
{
    if vars.len() == 0 {
        s
    } else {
        subst_all(subst_one(s, vars[0].0@, vars[0].1@), vars.skip(1))
    }
}

/// What serde_json makes of a document: `Some` of the re-serialized text when
/// the text parses as JSON, `None` otherwise.
pub uninterp spec fn json_canon(s: Seq<char>) -> Option<Seq<char>>;

/// One substitution round on a JSON document: the rewritten text is re-parsed,
/// and kept only if it is still valid JSON; otherwise the round is dropped.
pub open spec fn json_subst_one(t: Seq<char>, key: Seq<char>, val: Seq<char>) -> Seq<char> {
    match json_canon(subst_one(t, key, val)) {
        Some(c) => c,
        None => t,
    }
}

/// All variables applied to a JSON document, in the order supplied.
pub open spec fn json_subst_all(t: Seq<char>, vars: Seq<(String, String)>) -> Seq<char>
    decreases vars.len(),
{
    if vars.len() == 0 {
        t
    } else {
        json_subst_all(json_subst_one(t, vars[0].0@, vars[0].1@), vars.skip(1))
    }
}

/// Relies on `serde_json::from_str::<Value>` and `serde_json::Value::to_string`:
/// parses the text as a JSON document and re-serializes it; the result depends
/// on the text alone.
#[verifier::external_body]
fn reparse_json(s: &str) -> (r: Option<String>)
    ensures
        r is Some <==> json_canon(s@) is Some,
        r is Some ==> r->0@ == json_canon(s@)->0,
{
    match serde_json::from_str::<serde_json::Value>(s) {
        Ok(v) => Some(v.to_string()),
        Err(_) => None,
    }
}

/// Builds the literal `{{key}}` token for a variable name.
fn make_token(key: &String) -> (r: String)
    ensures
        r@ == token_of(key@),
        r@.len() > 0,
{
    proof {
        reveal_strlit("{{");
        reveal_strlit("}}");
    }
    let mut t = String::from_str("{{");
    t.append(key.as_str());
    t.append("}}");
    t
}

/// A text without the variable's token is left verbatim by its round.
pub proof fn lemma_subst_one_untouched(s: Seq<char>, key: Seq<char>, val: Seq<char>)
    requires
        !contains_seq(s, token_of(key)),
    ensures
        subst_one(s, key, val) == s,
{
    assert(token_of(key).len() >= 4) by {
        reveal_strlit("{{");
        reveal_strlit("}}");
    }
    lemma_replaced_untouched(s, token_of(key), val);
}

/// A name without brace characters; tokens of such names cannot overlap one
/// another in any text.
pub open spec fn brace_free(s: Seq<char>) -> bool {
    forall|i: int| 0 <= i < s.len() ==> (#[trigger] s[i]) != '{' && s[i] != '}'
}

/// The shape of a token: two opening braces, the name, two closing braces.
proof fn lemma_token_shape(n: Seq<char>)
    ensures
        token_of(n).len() == n.len() + 4,
        token_of(n)[0] == '{',
        token_of(n)[1] == '{',
        token_of(n)[n.len() + 2 as int] == '}',
        token_of(n)[n.len() + 3 as int] == '}',
        forall|i: int| 0 <= i < n.len() ==> token_of(n)[i + 2] == n[i],
{
    reveal_strlit("{{");
    reveal_strlit("}}");
    assert(token_of(n).len() == n.len() + 4);
    assert(token_of(n)[0] == "{{"@[0]);
    assert(token_of(n)[1] == "{{"@[1]);
    assert(token_of(n)[n.len() + 2 as int] == "}}"@[0]);
    assert(token_of(n)[n.len() + 3 as int] == "}}"@[1]);
    assert forall|i: int| 0 <= i < n.len() implies token_of(n)[i + 2] == n[i] by {
        assert(("{{"@ + n)[i + 2] == n[i]);
    }
}

/// Two brace-free names whose tokens match at overlapping positions, the
/// second starting inside the first, can only be the same name.
proof fn lemma_token_overlap_same_name(
    s: Seq<char>,
    k: Seq<char>,
    n: Seq<char>,
    i: int,
    j: int,
)
    requires
        brace_free(k),
        brace_free(n),
        match_at(s, token_of(k), i),
        match_at(s, token_of(n), j),
        i <= j < i + token_of(k).len(),
    ensures
        k == n,
{
    let tk = token_of(k);
    let tn = token_of(n);
    lemma_token_shape(k);
    lemma_token_shape(n);
    assert forall|t: int| 0 <= t < tk.len() implies s[i + t] == tk[t] by {
        assert(s.subrange(i, i + tk.len() as int)[t] == s[i + t]);
    }
    assert forall|t: int| 0 <= t < tn.len() implies s[j + t] == tn[t] by {
        assert(s.subrange(j, j + tn.len() as int)[t] == s[j + t]);
    }
    let d = j - i;
    assert(s[j] == '{');
    assert(s[j + 1] == '{');
    if d == 0 {
        if k.len() == n.len() {
            assert(k =~= n) by {
                assert forall|t: int| 0 <= t < k.len() implies k[t] == n[t] by {
                    assert(s[i + t + 2] == tk[t + 2]);
                    assert(s[j + t + 2] == tn[t + 2]);
                }
            }
        } else if k.len() < n.len() {
            assert(s[i + k.len() + 2] == tk[k.len() + 2 as int]);
            assert(s[j + k.len() + 2] == tn[k.len() + 2 as int]);
            assert(n[k.len() as int] == '}');
        } else {
            assert(s[j + n.len() + 2] == tn[n.len() + 2 as int]);
            assert(s[i + n.len() + 2] == tk[n.len() + 2 as int]);
            assert(k[n.len() as int] == '}');
        }
    } else if d == 1 {
        // The second brace pair would have to start one step in: the next
        // character is the name's first character or a closing brace.
        assert(s[j + 1] == tk[2]);
        if k.len() > 0 {
            assert(tk[2] == k[0]);
        }
    } else if d < k.len() + 2 {
        // Both braces of the inner token fall on the outer name's characters.
        assert(s[j] == tk[d]);
        assert(tk[d] == k[d - 2]);
    } else {
        // The inner token would start on the outer token's closing braces.
        assert(s[j] == tk[d]);
    }
}

/// Tokens of distinct brace-free names occur only at disjoint positions.
proof fn lemma_tokens_disjoint(s: Seq<char>, k: Seq<char>, n: Seq<char>, i: int, j: int)
    requires
        brace_free(k),
        brace_free(n),
        k != n,
        match_at(s, token_of(k), i),
        match_at(s, token_of(n), j),
    ensures
        i + token_of(k).len() <= j || j + token_of(n).len() <= i,
{
    if j < i + token_of(k).len() && i < j + token_of(n).len() {
        if i <= j {
            lemma_token_overlap_same_name(s, k, n, i, j);
        } else {
            lemma_token_overlap_same_name(s, n, k, j, i);
        }
    }
}

/// One round for a different, brace-free key leaves an occurrence of the
/// name's token standing somewhere in the result.
proof fn lemma_replaced_keeps_token(
    s: Seq<char>,
    k: Seq<char>,
    v: Seq<char>,
    n: Seq<char>,
    j: int,
)
    requires
        brace_free(k),
        brace_free(n),
        k != n,
        match_at(s, token_of(n), j),
    ensures
        contains_seq(replaced(s, token_of(k), v), token_of(n)),
    decreases s.len(),
{
    let tk = token_of(k);
    let tn = token_of(n);
    lemma_token_shape(k);
    lemma_token_shape(n);
    if s.len() < tk.len() {
        assert(replaced(s, tk, v) == s);
        assert(contains_seq(s, tn));
    } else if s.take(tk.len() as int) == tk {
        assert(s.take(tk.len() as int) =~= s.subrange(0, tk.len() as int));
        assert(match_at(s, tk, 0));
        lemma_tokens_disjoint(s, k, n, 0, j);
        assert(j >= tk.len());
        assert(s.skip(tk.len() as int).subrange(j - tk.len(), j - tk.len() + tn.len() as int)
            =~= s.subrange(j, j + tn.len() as int));
        assert(match_at(s.skip(tk.len() as int), tn, j - tk.len()));
        lemma_replaced_keeps_token(s.skip(tk.len() as int), k, v, n, j - tk.len());
        let j2 = choose|j2: int| match_at(replaced(s.skip(tk.len() as int), tk, v), tn, j2);
        crate::text::lemma_match_in_concat(v, replaced(s.skip(tk.len() as int), tk, v), tn, j2);
    } else if j == 0 {
        // No round for a different name can begin inside this occurrence.
        assert forall|p: int| 0 <= p < tn.len() implies !match_at(s, tk, p) by {
            if match_at(s, tk, p) {
                if p == 0 {
                    assert(s.take(tk.len() as int) =~= s.subrange(0, tk.len() as int));
                } else {
                    lemma_tokens_disjoint(s, k, n, p, 0);
                }
            }
        }
        crate::text::lemma_replaced_clean_prefix(s, tk, v, tn.len() as int);
        assert(s.take(tn.len() as int) =~= s.subrange(0, tn.len() as int));
        assert(match_at(s.take(tn.len() as int), tn, 0)) by {
            assert(s.take(tn.len() as int).subrange(0, tn.len() as int) =~= s.take(
                tn.len() as int,
            ));
        }
        crate::text::lemma_match_in_prefix(
            s.take(tn.len() as int),
            replaced(s.skip(tn.len() as int), tk, v),
            tn,
            0,
        );
    } else {
        assert(s.take(tk.len() as int) =~= s.subrange(0, tk.len() as int));
        assert(s.skip(1).subrange(j - 1, j - 1 + tn.len() as int) =~= s.subrange(
            j,
            j + tn.len() as int,
        ));
        assert(match_at(s.skip(1), tn, j - 1));
        lemma_replaced_keeps_token(s.skip(1), k, v, n, j - 1);
        let j2 = choose|j2: int| match_at(replaced(s.skip(1), tk, v), tn, j2);
        crate::text::lemma_match_in_concat(seq![s[0]], replaced(s.skip(1), tk, v), tn, j2);
    }
}

/// An unmatched token survives substitution: a token whose brace-free name
/// differs from every supplied brace-free variable name still occurs in the
/// text after the whole pass, however many other tokens were replaced
/// around it.
pub proof fn lemma_unmatched_token_survives(
    s: Seq<char>,
    vars: Seq<(String, String)>,
    name: Seq<char>,
)
    requires
        brace_free(name),
        forall|m: int|
            0 <= m < vars.len() ==> brace_free((#[trigger] vars[m]).0@) && vars[m].0@ != name,
        contains_seq(s, token_of(name)),
    ensures
        contains_seq(subst_all(s, vars), token_of(name)),
    decreases vars.len(),
{
    if vars.len() > 0 {
        let j = choose|j: int| match_at(s, token_of(name), j);
        lemma_replaced_keeps_token(s, vars[0].0@, vars[0].1@, name, j);
        assert forall|m: int|
            0 <= m < vars.skip(1).len() implies brace_free((#[trigger] vars.skip(1)[m]).0@)
            && vars.skip(1)[m].0@ != name by {
            assert(vars.skip(1)[m] == vars[m + 1]);
        }
        lemma_unmatched_token_survives(subst_one(s, vars[0].0@, vars[0].1@), vars.skip(1), name);
    }
}

/// A text in which no supplied variable's token occurs is left verbatim by
/// the whole substitution pass: unmatched tokens survive and no error is
/// ever raised.
pub proof fn lemma_subst_all_untouched(s: Seq<char>, vars: Seq<(String, String)>)
    requires
        forall|k: int|
            0 <= k < vars.len() ==> !contains_seq(s, token_of((#[trigger] vars[k]).0@)),
    ensures
        subst_all(s, vars) == s,
    decreases vars.len(),
{
    if vars.len() > 0 {
        lemma_subst_one_untouched(s, vars[0].0@, vars[0].1@);
        assert forall|k: int|
            0 <= k < vars.skip(1).len() implies !contains_seq(
            s,
            token_of((#[trigger] vars.skip(1)[k]).0@),
        ) by {
            assert(vars.skip(1)[k] == vars[k + 1]);
        }
        lemma_subst_all_untouched(s, vars.skip(1));
    }
}

/// Applies every variable, in order, to one plain text.
pub fn subst_text_all(s: &String, vars: &Vec<(String, String)>) -> (r: String)
    ensures
        r@ == subst_all(s@, vars@),
{
    let mut cur: String = s.clone();
    let mut i: usize = 0;
    proof {
        assert(vars@.skip(0) =~= vars@);
    }
    while i < vars.len()
        invariant
            i <= vars@.len(),
            subst_all(s@, vars@) == subst_all(cur@, vars@.skip(i as int)),
        decreases vars@.len() - i,
    {
        let ghost rest = vars@.skip(i as int);
        let pat = make_token(&vars[i].0);
        let next = replace_all(cur.as_str(), pat.as_str(), vars[i].1.as_str());
        proof {
            assert(rest[0] == vars@[i as int]);
            assert(rest.skip(1) =~= vars@.skip(i + 1));
            assert(next@ == subst_one(cur@, vars@[i as int].0@, vars@[i as int].1@));
        }
        cur = next;
        i = i + 1;
    }
    proof {
        assert(vars@.skip(vars@.len() as int) =~= Seq::<(String, String)>::empty());
    }
    cur
}

/// Applies every variable, in order, to one JSON document text, re-parsing
/// after each round and keeping the last successfully parsed state.
pub fn subst_json_all(t: &String, vars: &Vec<(String, String)>) -> (r: String)
    ensures
        r@ == json_subst_all(t@, vars@),
{
    let mut cur: String = t.clone();
    let mut i: usize = 0;
    proof {
        assert(vars@.skip(0) =~= vars@);
    }
    while i < vars.len()
        invariant
            i <= vars@.len(),
            json_subst_all(t@, vars@) == json_subst_all(cur@, vars@.skip(i as int)),
        decreases vars@.len() - i,
    {
        let ghost rest = vars@.skip(i as int);
        let pat = make_token(&vars[i].0);
        let rewritten = replace_all(cur.as_str(), pat.as_str(), vars[i].1.as_str());
        proof {
            assert(rest[0] == vars@[i as int]);
            assert(rest.skip(1) =~= vars@.skip(i + 1));
            assert(rewritten@ == subst_one(cur@, vars@[i as int].0@, vars@[i as int].1@));
        }
        match reparse_json(rewritten.as_str()) {
            Some(parsed) => {
                cur = parsed;
            },
            None => {},
        }
        i = i + 1;
    }
    proof {
        assert(vars@.skip(vars@.len() as int) =~= Seq::<(String, String)>::empty());
    }
    cur
}

/// Applies every variable to the key and value of each entry; the enabled
/// flag of every entry is preserved.
pub fn subst_entries_all(entries: &Vec<KeyValue>, vars: &Vec<(String, String)>) -> (r: Vec<
    KeyValue,
>)
    ensures
        r@.len() == entries@.len(),
        forall|j: int|
            0 <= j < entries@.len() ==> {
                &&& (#[trigger] r@[j]).key@ == subst_all(entries@[j].key@, vars@)
                &&& r@[j].value@ == subst_all(entries@[j].value@, vars@)
                &&& r@[j].enabled == entries@[j].enabled
            },
{
    let mut out: Vec<KeyValue> = Vec::new();
    let mut i: usize = 0;
    while i < entries.len()
        invariant
            i <= entries@.len(),
            out@.len() == i,
            forall|j: int|
                0 <= j < i ==> {
                    &&& (#[trigger] out@[j]).key@ == subst_all(entries@[j].key@, vars@)
                    &&& out@[j].value@ == subst_all(entries@[j].value@, vars@)
                    &&& out@[j].enabled == entries@[j].enabled
                },
        decreases entries@.len() - i,
    {
        let e = &entries[i];
        let kv = KeyValue {
            key: subst_text_all(&e.key, vars),
            value: subst_text_all(&e.value, vars),
            enabled: e.enabled,
        };
        out.push(kv);
        i = i + 1;
    }
    out
}

/// How the body after substitution relates to the body before it: raw and
/// JSON contents are rewritten, the other variants are untouched.
pub open spec fn body_substituted(
    before: RequestBody,
    after: RequestBody,
    vars: Seq<(String, String)>,
) -> bool {
    match before {
        RequestBody::Empty => after == RequestBody::Empty,
        RequestBody::Raw { mime, content } => {
            &&& after matches RequestBody::Raw { mime: m2, content: c2 }
            &&& m2 == mime
            &&& c2@ == subst_all(content@, vars)
        },
        RequestBody::Json { value } => {
            &&& after matches RequestBody::Json { value: v2 }
            &&& v2@ == json_subst_all(value@, vars)
        },
        RequestBody::FormUrlEncoded { fields } => {
            &&& after matches RequestBody::FormUrlEncoded { fields: f2 }
            &&& f2@ == fields@
        },
        RequestBody::Multipart { fields } => {
            &&& after matches RequestBody::Multipart { fields: f2 }
            &&& f2@ == fields@
        },
    }
}

/// Rewrites every `{{key}}` token in the URL, all header and param keys and
/// values (enabled or not), and the raw or JSON body, scanning the variables
/// in the supplied order. Method, auth, timeout and transport flags are left
/// untouched.
pub fn substitute_variables(config: &mut RequestConfig, vars: &Vec<(String, String)>)
    ensures
        final (config).url@ == subst_all(old(config).url@, vars@),
        final (config).headers@.len() == old(config).headers@.len(),
        forall|j: int|
            0 <= j < old(config).headers@.len() ==> {
                &&& (#[trigger] final (config).headers@[j]).key@ == subst_all(
                    old(config).headers@[j].key@,
                    vars@,
                )
                &&& final (config).headers@[j].value@ == subst_all(
                    old(config).headers@[j].value@,
                    vars@,
                )
                &&& final (config).headers@[j].enabled == old(config).headers@[j].enabled
            },
        final (config).params@.len() == old(config).params@.len(),
        forall|j: int|
            0 <= j < old(config).params@.len() ==> {
                &&& (#[trigger] final (config).params@[j]).key@ == subst_all(
                    old(config).params@[j].key@,
                    vars@,
                )
                &&& final (config).params@[j].value@ == subst_all(
                    old(config).params@[j].value@,
                    vars@,
                )
                &&& final (config).params@[j].enabled == old(config).params@[j].enabled
            },
        body_substituted(old(config).body, final (config).body, vars@),
        final (config).method == old(config).method,
        final (config).auth == old(config).auth,
        final (config).timeout_ms == old(config).timeout_ms,
        final (config).ignore_tls == old(config).ignore_tls,
        final (config).follow_redirects == old(config).follow_redirects,
{
    config.url = subst_text_all(&config.url, vars);
    config.headers = subst_entries_all(&config.headers, vars);
    config.params = subst_entries_all(&config.params, vars);
    let body = match &config.body {
        RequestBody::Empty => RequestBody::Empty,
        RequestBody::Raw { mime, content } => RequestBody::Raw {
            mime: mime.clone(),
            content: subst_text_all(content, vars),
        },
        RequestBody::Json { value } => RequestBody::Json { value: subst_json_all(value, vars) },
        RequestBody::FormUrlEncoded { fields } => RequestBody::FormUrlEncoded {
            fields: clone_entries(fields),
        },
        RequestBody::Multipart { fields } => RequestBody::Multipart {
            fields: clone_entries(fields),
        },
    };
    config.body = body;
}

/// Copies a list of entries field by field.
fn clone_entries(entries: &Vec<KeyValue>) -> (r: Vec<KeyValue>)
    ensures
        r@ == entries@,
{
    let mut out: Vec<KeyValue> = Vec::new();
    let mut i: usize = 0;
    while i < entries.len()
        invariant
            i <= entries@.len(),
            out@ == entries@.take(i as int),
        decreases entries@.len() - i,
    {
        let e = &entries[i];
        out.push(KeyValue { key: e.key.clone(), value: e.value.clone(), enabled: e.enabled });
        proof {
            assert(entries@[i as int] == (KeyValue {
                key: entries@[i as int].key,
                value: entries@[i as int].value,
                enabled: entries@[i as int].enabled,
            }));
            assert(entries@.take(i + 1 as int) =~= entries@.take(i as int).push(
                entries@[i as int],
            ));
        }
        i = i + 1;
    }
    proof {
        assert(entries@.take(entries@.len() as int) =~= entries@);
    }
    out
}

} // verus!
