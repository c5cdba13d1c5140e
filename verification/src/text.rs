//! Text helpers shared by the Kotlin and Swift filters.

use vstd::prelude::*;
use heck::ToLowerCamelCase;

verus! {

/// An ASCII letter or digit.
pub open spec fn is_ascii_alnum(c: char) -> bool {
    ('a' <= c && c <= 'z') || ('A' <= c && c <= 'Z') || ('0' <= c && c <= '9')
}

/// What heck's lower-camel-case conversion yields for a text.
pub uninterp spec fn lower_camel_case(s: Seq<char>) -> Seq<char>;

/// `heck::ToLowerCamelCase::to_lower_camel_case` on a `str`.
///
/// Trusted: the result is `lower_camel_case` of the input, and (heck 0.4 without its
/// `unicode` feature splits words on every character that is not an ASCII letter or
/// digit, skips underscores and only changes the case of what it keeps) every
/// character of the result is an ASCII letter or digit. That last fact holds while no
/// crate of the build turns on heck's `unicode` feature, which splits words by Unicode
/// rules instead.
#[verifier::external_body]
pub(crate) fn to_lower_camel_case(s: &str) -> (r: String)
    ensures
        r@ == lower_camel_case(s@),
        forall|i: int| 0 <= i < r@.len() ==> is_ascii_alnum(#[trigger] r@[i]),
{
    s.to_lower_camel_case()
}

/// `s` with every leading backtick removed.
pub open spec fn trim_start_backticks(s: Seq<char>) -> Seq<char>
    decreases s.len(),
{
    if s.len() > 0 && s[0] == '`' {
        trim_start_backticks(s.drop_first())
    } else {
        s
    }
}

/// `s` with every trailing backtick removed.
pub open spec fn trim_end_backticks(s: Seq<char>) -> Seq<char>
    decreases s.len(),
{
    if s.len() > 0 && s.last() == '`' {
        trim_end_backticks(s.drop_last())
    } else {
        s
    }
}

/// `s` with every leading and every trailing backtick removed.
pub open spec fn trim_backticks(s: Seq<char>) -> Seq<char> {
    trim_end_backticks(trim_start_backticks(s))
}

proof fn lemma_trim_start_skip(s: Seq<char>, i: int)
    requires
        0 <= i <= s.len(),
        forall|k: int| 0 <= k < i ==> s[k] == '`',
    ensures
        trim_start_backticks(s) == trim_start_backticks(s.subrange(i, s.len() as int)),
    decreases i,
{
    if i > 0 {
        assert(s.len() > 0 && s[0] == '`');
        let t = s.drop_first();
        assert forall|k: int| 0 <= k < i - 1 implies t[k] == '`' by {
            assert(t[k] == s[k + 1]);
        }
        lemma_trim_start_skip(t, i - 1);
        assert(t.subrange(i - 1, t.len() as int) =~= s.subrange(i, s.len() as int));
    } else {
        assert(s.subrange(0, s.len() as int) =~= s);
    }
}

proof fn lemma_trim_end_skip(s: Seq<char>, j: int)
    requires
        0 <= j <= s.len(),
        forall|k: int| j <= k < s.len() ==> s[k] == '`',
    ensures
        trim_end_backticks(s) == trim_end_backticks(s.subrange(0, j)),
    decreases s.len() - j,
{
    if j < s.len() {
        assert(s.last() == '`');
        let t = s.drop_last();
        lemma_trim_end_skip(t, j);
        assert(t.subrange(0, j) =~= s.subrange(0, j));
    } else {
        assert(s.subrange(0, j) =~= s);
    }
}

/// Whether two texts are equal, character by character.
pub fn str_eq(a: &str, b: &str) -> (r: bool)
    ensures
        r == (a@ == b@),
{
    let n = a.unicode_len();
    let m = b.unicode_len();
    if n != m {
        return false;
    }
    let mut i: usize = 0;
    while i < n
        invariant
            n == a@.len(),
            m == b@.len(),
            n == m,
            i <= n,
            forall|k: int| 0 <= k < i ==> a@[k] == b@[k],
        decreases n - i,
    {
        if a.get_char(i) != b.get_char(i) {
            return false;
        }
        i = i + 1;
    }
    assert(a@ =~= b@);
    true
}

/// Removes every leading and trailing backtick, as `str::trim_matches('`')` does.
pub fn trim_backticks_exec(s: &str) -> (r: String)
    ensures
        r@ == trim_backticks(s@),
{
    let n = s.unicode_len();
    let mut i: usize = 0;
    while i < n && s.get_char(i) == '`'
        invariant
            n == s@.len(),
            i <= n,
            forall|k: int| 0 <= k < i ==> s@[k] == '`',
        decreases n - i,
    {
        i = i + 1;
    }
    let mut j: usize = n;
    while j > i && s.get_char(j - 1) == '`'
        invariant
            n == s@.len(),
            i <= j <= n,
            forall|k: int| j <= k < n ==> s@[k] == '`',
        decreases j,
    {
        j = j - 1;
    }
    let r = s.substring_char(i, j);
    proof {
        lemma_trim_start_skip(s@, i as int);
        let t = s@.subrange(i as int, n as int);
        if i < n {
            assert(t[0] == s@[i as int]);
        }
        assert(trim_start_backticks(t) == t);
        lemma_trim_end_skip(t, (j - i) as int);
        assert(t.subrange(0, (j - i) as int) =~= r@);
        let u = r@;
        if u.len() > 0 {
            assert(u.last() == s@[j - 1]);
        }
        assert(trim_end_backticks(u) == u);
    }
    String::from_str(r)
}

/// `obj_name.field_name`.
pub(crate) fn field_ref(obj_name: &str, field_name: &str) -> (r: String)
    ensures
        r@ == obj_name@ + "."@ + field_name@,
{
    let mut s = String::from_str(obj_name);
    s.append(".");
    s.append(field_name);
    s
}

/// `s` followed by `after`.
pub(crate) fn suffixed(s: String, after: &str) -> (r: String)
    ensures
        r@ == s@ + after@,
{
    let mut s = s;
    s.append(after);
    s
}

/// `before`, `inner`, `after`.
pub(crate) fn wrapped(before: &str, inner: &str, after: &str) -> (r: String)
    ensures
        r@ == before@ + inner@ + after@,
{
    let mut s = String::from_str(before);
    s.append(inner);
    s.append(after);
    s
}

/// `before`, then `middle`, then `after`, then `label`, then `end`, then `suffix`.
pub(crate) fn joined(before: &str, middle: &str, after: &str, label: &str, end: &str, suffix: &str) -> (r:
    String)
    ensures
        r@ == before@ + middle@ + after@ + label@ + end@ + suffix@,
{
    let mut s = String::from_str(before);
    s.append(middle);
    s.append(after);
    s.append(label);
    s.append(end);
    s.append(suffix);
    s
}

/// Whether `a` comes strictly before `b` in the order of `String`: lexicographic, by
/// code point (the order of the UTF-8 bytes), a proper prefix first.
pub open spec fn text_less(a: Seq<char>, b: Seq<char>) -> bool
    decreases a.len(),
{
    if a.len() == 0 {
        b.len() > 0
    } else if b.len() == 0 {
        false
    } else if a[0] != b[0] {
        a[0] < b[0]
    } else {
        text_less(a.drop_first(), b.drop_first())
    }
}

/// No text comes before itself.
pub proof fn lemma_text_less_irreflexive(a: Seq<char>)
    ensures
        !text_less(a, a),
    decreases a.len(),
{
    if a.len() > 0 {
        lemma_text_less_irreflexive(a.drop_first());
    }
}

/// Of two texts that come before each other, neither does.
pub proof fn lemma_text_less_asymmetric(a: Seq<char>, b: Seq<char>)
    ensures
        text_less(a, b) ==> !text_less(b, a),
    decreases a.len(),
{
    if a.len() > 0 && b.len() > 0 && a[0] == b[0] {
        lemma_text_less_asymmetric(a.drop_first(), b.drop_first());
    }
}

/// The order is transitive.
pub proof fn lemma_text_less_transitive(a: Seq<char>, b: Seq<char>, c: Seq<char>)
    requires
        text_less(a, b),
        text_less(b, c),
    ensures
        text_less(a, c),
    decreases a.len(),
{
    if a.len() > 0 && b.len() > 0 && c.len() > 0 && a[0] == b[0] && b[0] == c[0] {
        lemma_text_less_transitive(a.drop_first(), b.drop_first(), c.drop_first());
    }
}

/// Of two different texts, one comes before the other.
pub proof fn lemma_text_less_total(a: Seq<char>, b: Seq<char>)
    ensures
        a == b || text_less(a, b) || text_less(b, a),
    decreases a.len(),
{
    if a.len() > 0 && b.len() > 0 && a[0] == b[0] {
        lemma_text_less_total(a.drop_first(), b.drop_first());
        if a.drop_first() == b.drop_first() {
            assert(a =~= seq![a[0]] + a.drop_first());
            assert(b =~= seq![b[0]] + b.drop_first());
        }
    } else if a.len() == 0 && b.len() == 0 {
        assert(a =~= b);
    }
}

/// Whether `a` comes strictly before `b`, as `String`'s `<` orders them.
pub fn text_lt(a: &str, b: &str) -> (r: bool)
    ensures
        r == text_less(a@, b@),
{
    let n = a.unicode_len();
    let m = b.unicode_len();
    let mut i: usize = 0;
    proof {
        assert(a@.skip(0) =~= a@);
        assert(b@.skip(0) =~= b@);
    }
    while i < n && i < m && a.get_char(i) == b.get_char(i)
        invariant
            n == a@.len(),
            m == b@.len(),
            i <= n,
            i <= m,
            text_less(a@, b@) == text_less(a@.skip(i as int), b@.skip(i as int)),
        decreases n - i,
    {
        proof {
            let x = a@.skip(i as int);
            let y = b@.skip(i as int);
            assert(x[0] == y[0]);
            assert(x.drop_first() =~= a@.skip(i + 1));
            assert(y.drop_first() =~= b@.skip(i + 1));
        }
        i = i + 1;
    }
    if i == m {
        false
    } else if i == n {
        true
    } else {
        proof {
            assert(a@.skip(i as int)[0] == a@[i as int]);
            assert(b@.skip(i as int)[0] == b@[i as int]);
        }
        a.get_char(i) < b.get_char(i)
    }
}

/// A text that is empty or neither starts nor ends with a backtick.
pub open spec fn unquoted(s: Seq<char>) -> bool {
    s.len() == 0 || (s[0] != '`' && s.last() != '`')
}

proof fn lemma_trim_start_result(s: Seq<char>)
    ensures
        trim_start_backticks(s).len() <= s.len(),
        trim_start_backticks(s).len() == 0 || trim_start_backticks(s)[0] != '`',
        trim_start_backticks(s) =~= s.subrange(
            s.len() - trim_start_backticks(s).len(),
            s.len() as int,
        ),
    decreases s.len(),
{
    if s.len() > 0 && s[0] == '`' {
        let d = s.drop_first();
        lemma_trim_start_result(d);
        let t = trim_start_backticks(d);
        assert(d.subrange(d.len() - t.len(), d.len() as int) =~= s.subrange(
            s.len() - t.len(),
            s.len() as int,
        ));
    } else {
        assert(s.subrange(0, s.len() as int) =~= s);
    }
}

proof fn lemma_trim_end_result(s: Seq<char>)
    ensures
        trim_end_backticks(s).len() <= s.len(),
        trim_end_backticks(s).len() == 0 || trim_end_backticks(s).last() != '`',
        trim_end_backticks(s) =~= s.subrange(0, trim_end_backticks(s).len() as int),
    decreases s.len(),
{
    if s.len() > 0 && s.last() == '`' {
        let d = s.drop_last();
        lemma_trim_end_result(d);
        let t = trim_end_backticks(d);
        assert(d.subrange(0, t.len() as int) =~= s.subrange(0, t.len() as int));
    } else {
        assert(s.subrange(0, s.len() as int) =~= s);
    }
}

/// What `trim_backticks` gives is unquoted, and an unquoted text is its own trim.
pub proof fn lemma_trim_backticks_unquoted(s: Seq<char>)
    ensures
        unquoted(trim_backticks(s)),
        unquoted(s) ==> trim_backticks(s) == s,
{
    let t = trim_start_backticks(s);
    lemma_trim_start_result(s);
    lemma_trim_end_result(t);
    let u = trim_end_backticks(t);
    if u.len() > 0 {
        assert(u[0] == t[0]);
    }
    if unquoted(s) {
        if s.len() > 0 {
            assert(t == s);
            assert(u == s);
        } else {
            assert(t == s);
        }
    }
}

/// Law: `unquote` is idempotent: trimming backticks twice trims as much as once.
pub proof fn lemma_trim_backticks_idempotent(s: Seq<char>)
    ensures
        trim_backticks(trim_backticks(s)) == trim_backticks(s),
{
    lemma_trim_backticks_unquoted(s);
    lemma_trim_backticks_unquoted(trim_backticks(s));
}

/// Law: trimming the backticks around a text that holds none gives the text back:
/// `unquote` undoes the quoting of `var_name`.
pub proof fn lemma_trim_quoted(s: Seq<char>)
    requires
        forall|i: int| 0 <= i < s.len() ==> #[trigger] s[i] != '`',
    ensures
        trim_backticks("`"@ + s + "`"@) == s,
{
    reveal_strlit("`");
    let q = "`"@;
    let t = q + s + q;
    assert(forall|k: int| 0 <= k < 1 ==> t[k] == '`');
    lemma_trim_start_skip(t, 1);
    let u = t.subrange(1, t.len() as int);
    assert(u =~= s + q);
    if s.len() > 0 {
        assert(u[0] == s[0]);
        assert(trim_start_backticks(u) == u);
        lemma_trim_end_skip(u, s.len() as int);
        assert(u.subrange(0, s.len() as int) =~= s);
        assert(s.last() == s[s.len() - 1]);
        assert(trim_end_backticks(s) == s);
    } else {
        assert(u.len() == 1 && u[0] == '`');
        assert(u.drop_first() =~= Seq::<char>::empty());
        assert(trim_start_backticks(u.drop_first()) == Seq::<char>::empty());
        assert(trim_start_backticks(u) == Seq::<char>::empty());
        assert(s =~= Seq::<char>::empty());
    }
}

/// The text in lower camel case, between backticks: a variable name as Kotlin and
/// Swift quote it.
pub open spec fn spec_var_name(nm: Seq<char>) -> Seq<char> {
    "`"@ + lower_camel_case(nm) + "`"@
}

/// Every character of the text is an ASCII letter or digit.
pub open spec fn all_ascii_alnum(s: Seq<char>) -> bool {
    forall|i: int| 0 <= i < s.len() ==> is_ascii_alnum(#[trigger] s[i])
}

/// `spec_var_name(nm)`, built from the lower camel case of `nm`.
pub(crate) fn var_name_exec(nm: &str) -> (r: String)
    ensures
        r@ == spec_var_name(nm@),
        all_ascii_alnum(lower_camel_case(nm@)),
{
    let converted = to_lower_camel_case(nm);
    wrapped("`", converted.as_str(), "`")
}

/// Law: `unquote` undoes `var_name`: trimming the backticks of a quoted variable name
/// gives the lower camel case itself (heck's lower camel case holds no backtick).
pub proof fn lemma_unquote_var_name(nm: Seq<char>)
    requires
        all_ascii_alnum(lower_camel_case(nm)),
    ensures
        trim_backticks(spec_var_name(nm)) == lower_camel_case(nm),
{
    let l = lower_camel_case(nm);
    assert forall|i: int| 0 <= i < l.len() implies #[trigger] l[i] != '`' by {
        assert(is_ascii_alnum(l[i]));
    }
    lemma_trim_quoted(l);
}

} // verus!
