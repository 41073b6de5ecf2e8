//! Checks that make text from a remote model catalog safe to show in a terminal.
use vstd::prelude::*;
use crate::config::opt_view;
use crate::text::{is_ctrl, is_whitespace_char, is_ws, str_chars, string_from_chars};

verus! {

/// Longest model id, in bytes, accepted from a remote catalog.
pub const MAX_MODEL_ID_BYTES: usize = 512;

/// A character survives control filtering: it is no control character, or it is whitespace.
pub open spec fn keeps_char(c: char) -> bool {
    !is_ctrl(c) || is_ws(c)
}

/// The text with its control characters (other than whitespace) removed.
pub open spec fn drop_controls(s: Seq<char>) -> Seq<char>
    decreases s.len(),
{
    if s.len() == 0 {
        s
    } else {
        let r = drop_controls(s.drop_last());
        if keeps_char(s.last()) {
            r.push(s.last())
        } else {
            r
        }
    }
}

/// `str::split_whitespace`: the maximal runs of non-whitespace characters, in order.
pub open spec fn words(s: Seq<char>) -> Seq<Seq<char>>
    decreases s.len(),
{
    if s.len() == 0 {
        Seq::empty()
    } else {
        let w = words(s.drop_last());
        let c = s.last();
        if is_ws(c) {
            w
        } else if s.len() >= 2 && !is_ws(s[s.len() - 2]) {
            w.update(w.len() - 1, w.last().push(c))
        } else {
            w.push(seq![c])
        }
    }
}

/// The words joined with single spaces (`join(" ")`).
pub open spec fn join_words(w: Seq<Seq<char>>) -> Seq<char>
    decreases w.len(),
{
    if w.len() == 0 {
        Seq::empty()
    } else if w.len() == 1 {
        w[0]
    } else {
        join_words(w.drop_last()) + seq![' '] + w.last()
    }
}

/// Every run of whitespace becomes one space; leading and trailing whitespace goes.
pub open spec fn collapse_whitespace(s: Seq<char>) -> Seq<char> {
    join_words(words(s))
}

/// What `sanitize_catalog_text` makes of `s`: controls dropped, whitespace collapsed,
/// cut to `max` characters, and nothing when no character is left.
pub open spec fn sanitized_text(s: Seq<char>, max: nat) -> Option<Seq<char>> {
    let c = collapse_whitespace(drop_controls(s));
    let t = if c.len() <= max {
        c
    } else {
        c.take(max as int)
    };
    if t.len() == 0 {
        None
    } else {
        Some(t)
    }
}

/// The number of bytes `c` takes in UTF-8 (`char::len_utf8`).
pub open spec fn char_utf8_len(c: char) -> nat {
    let n = c as u32;
    if n < 0x80 {
        1
    } else if n < 0x800 {
        2
    } else if n < 0x10000 {
        3
    } else {
        4
    }
}

/// The number of bytes the text takes in UTF-8 (`str::len`).
pub open spec fn utf8_len(s: Seq<char>) -> nat
    decreases s.len(),
{
    if s.len() == 0 {
        0
    } else {
        utf8_len(s.drop_last()) + char_utf8_len(s.last())
    }
}

/// A model id that is safe to store and display: not empty, at most 512 bytes, and
/// free of control and whitespace characters.
pub open spec fn safe_model_id(id: Seq<char>) -> bool {
    &&& id.len() > 0
    &&& utf8_len(id) <= MAX_MODEL_ID_BYTES
    &&& forall|i: int| 0 <= i < id.len() ==> !is_ctrl(#[trigger] id[i]) && !is_ws(id[i])
}

proof fn lemma_words_shape(s: Seq<char>)
    ensures
        forall|i: int| 0 <= i < words(s).len() ==> (#[trigger] words(s)[i]).len() > 0,
        forall|i: int, j: int|
            0 <= i < words(s).len() && 0 <= j < words(s)[i].len() ==> !is_ws(
                #[trigger] words(s)[i][j],
            ) && s.contains(words(s)[i][j]),
        s.len() > 0 && !is_ws(s.last()) ==> words(s).len() > 0,
    decreases s.len(),
{
    if s.len() > 0 {
        let t = s.drop_last();
        lemma_words_shape(t);
        let w = words(t);
        let c = s.last();
        assert forall|x: char| t.contains(x) implies s.contains(x) by {
            let k = choose|k: int| 0 <= k < t.len() && t[k] == x;
            assert(s[k] == x);
        }
        assert(s[s.len() - 1] == c);
        if is_ws(c) {
        } else if s.len() >= 2 && !is_ws(s[s.len() - 2]) {
            assert(t.last() == s[s.len() - 2]);
            let nw = w.update(w.len() - 1, w.last().push(c));
            assert forall|i: int, j: int|
                0 <= i < nw.len() && 0 <= j < nw[i].len() implies !is_ws(#[trigger] nw[i][j])
                && s.contains(nw[i][j]) by {
                if i == w.len() - 1 && j == w.last().len() {
                    assert(nw[i][j] == c);
                } else {
                    assert(nw[i][j] == w[i][j]);
                }
            }
        } else {
            let nw = w.push(seq![c]);
            assert forall|i: int, j: int|
                0 <= i < nw.len() && 0 <= j < nw[i].len() implies !is_ws(#[trigger] nw[i][j])
                && s.contains(nw[i][j]) by {
                if i == w.len() {
                    assert(nw[i][j] == c);
                } else {
                    assert(nw[i][j] == w[i][j]);
                }
            }
        }
    }
}

proof fn lemma_join_nonempty(w: Seq<Seq<char>>)
    requires
        forall|i: int| 0 <= i < w.len() ==> (#[trigger] w[i]).len() > 0,
    ensures
        join_words(w).len() == 0 <==> w.len() == 0,
{
}

proof fn lemma_join_extend_last(w: Seq<Seq<char>>, c: char)
    requires
        w.len() > 0,
    ensures
        join_words(w.update(w.len() - 1, w.last().push(c))) == join_words(w).push(c),
{
    let nw = w.update(w.len() - 1, w.last().push(c));
    if w.len() == 1 {
    } else {
        assert(nw.drop_last() =~= w.drop_last());
        assert(join_words(nw) =~= join_words(w).push(c));
    }
}

proof fn lemma_join_chars(w: Seq<Seq<char>>)
    ensures
        forall|k: int|
            0 <= k < join_words(w).len() ==> #[trigger] join_words(w)[k] == ' ' || exists|
                i: int,
                j: int,
            | 0 <= i < w.len() && 0 <= j < w[i].len() && join_words(w)[k] == #[trigger] w[i][j],
    decreases w.len(),
{
    if w.len() > 1 {
        let a = w.drop_last();
        lemma_join_chars(a);
        let r = join_words(w);
        assert forall|k: int| 0 <= k < r.len() implies #[trigger] r[k] == ' ' || exists|
            i: int,
            j: int,
        | 0 <= i < w.len() && 0 <= j < w[i].len() && r[k] == #[trigger] w[i][j] by {
            let ja = join_words(a);
            if k < ja.len() {
                assert(r[k] == ja[k]);
                if ja[k] != ' ' {
                    let (i, j) = choose|i: int, j: int|
                        0 <= i < a.len() && 0 <= j < a[i].len() && ja[k] == #[trigger] a[i][j];
                    assert(w[i] == a[i]);
                }
            } else if k == ja.len() {
            } else {
                let j = k - ja.len() - 1;
                assert(r[k] == w.last()[j]);
                assert(w[w.len() - 1][j] == r[k]);
            }
        }
    } else if w.len() == 1 {
        assert forall|k: int| 0 <= k < join_words(w).len() implies #[trigger] join_words(w)[k]
            == ' ' || exists|i: int, j: int|
            0 <= i < w.len() && 0 <= j < w[i].len() && join_words(w)[k] == #[trigger] w[i][j] by {
            assert(join_words(w)[k] == w[0][k]);
        }
    }
}

proof fn lemma_drop_controls_keeps(s: Seq<char>)
    ensures
        forall|x: char| drop_controls(s).contains(x) ==> keeps_char(x),
    decreases s.len(),
{
    if s.len() > 0 {
        lemma_drop_controls_keeps(s.drop_last());
        let r = drop_controls(s.drop_last());
        assert forall|x: char| drop_controls(s).contains(x) implies keeps_char(x) by {
            if keeps_char(s.last()) {
                let k = choose|k: int| 0 <= k < r.push(s.last()).len() && r.push(s.last())[k] == x;
                if k < r.len() {
                    assert(r[k] == x);
                }
            }
        }
    }
}

/// Sanitised catalog text is safe for a terminal: it is not empty, holds at most `max`
/// characters, no control character, and no whitespace but the plain space.
pub proof fn lemma_sanitized_text_is_display_safe(s: Seq<char>, max: nat)
    ensures
        sanitized_text(s, max) matches Some(t) ==> {
            &&& 0 < t.len() <= max
            &&& forall|k: int|
                0 <= k < t.len() ==> !is_ctrl(#[trigger] t[k]) && (is_ws(t[k]) ==> t[k] == ' ')
        },
{
    let d = drop_controls(s);
    let w = words(d);
    let c = join_words(w);
    lemma_drop_controls_keeps(s);
    lemma_words_shape(d);
    lemma_join_chars(w);
    if let Some(t) = sanitized_text(s, max) {
        assert forall|k: int| 0 <= k < t.len() implies !is_ctrl(#[trigger] t[k]) && (is_ws(t[k])
            ==> t[k] == ' ') by {
            assert(t[k] == c[k]);
            if c[k] != ' ' {
                let (i, j) = choose|i: int, j: int|
                    0 <= i < w.len() && 0 <= j < w[i].len() && c[k] == #[trigger] w[i][j];
                assert(d.contains(w[i][j]));
                assert(!is_ws(w[i][j]));
                assert(keeps_char(w[i][j]));
                assert(!is_ctrl(c[k]));
            } else {
                assert((' ' as u32) == 32);
                assert(!is_ctrl(c[k]));
            }
        }
    }
}

/// Text already fit for display: no control character, no whitespace but single
/// spaces between words, and none at either end.
pub open spec fn plain_text(s: Seq<char>) -> bool {
    &&& s.len() > 0
    &&& !is_ws(s[0])
    &&& !is_ws(s.last())
    &&& forall|i: int| 0 <= i < s.len() ==> !is_ctrl(#[trigger] s[i]) && (is_ws(s[i]) ==> s[i] == ' ')
    &&& forall|i: int| 0 <= i < s.len() - 1 ==> !(is_ws(#[trigger] s[i]) && is_ws(s[i + 1]))
}

proof fn lemma_drop_controls_none(s: Seq<char>)
    requires
        forall|i: int| 0 <= i < s.len() ==> !is_ctrl(#[trigger] s[i]),
    ensures
        drop_controls(s) == s,
    decreases s.len(),
{
    if s.len() > 0 {
        assert forall|i: int| 0 <= i < s.drop_last().len() implies !is_ctrl(#[trigger] s.drop_last()[i]) by {
            assert(s.drop_last()[i] == s[i]);
        }
        lemma_drop_controls_none(s.drop_last());
        assert(!is_ctrl(s[s.len() - 1]));
        assert(s.drop_last().push(s.last()) =~= s);
    }
}

proof fn lemma_collapse_spaced(s: Seq<char>)
    requires
        s.len() > 0 ==> !is_ws(s[0]),
        forall|i: int| 0 <= i < s.len() ==> (is_ws(#[trigger] s[i]) ==> s[i] == ' '),
        forall|i: int| 0 <= i < s.len() - 1 ==> !(is_ws(#[trigger] s[i]) && is_ws(s[i + 1])),
    ensures
        join_words(words(s)) == if s.len() > 0 && is_ws(s.last()) {
            s.drop_last()
        } else {
            s
        },
    decreases s.len(),
{
    if s.len() > 0 {
        let t = s.drop_last();
        let c = s.last();
        assert forall|i: int| 0 <= i < t.len() implies (is_ws(#[trigger] t[i]) ==> t[i] == ' ') by {
            assert(t[i] == s[i]);
        }
        assert forall|i: int| 0 <= i < t.len() - 1 implies !(is_ws(#[trigger] t[i]) && is_ws(t[i + 1])) by {
            assert(t[i] == s[i]);
            assert(t[i + 1] == s[i + 1]);
        }
        if t.len() > 0 {
            assert(t[0] == s[0]);
        }
        lemma_collapse_spaced(t);
        lemma_words_shape(t);
        if is_ws(c) {
            assert(s.len() >= 2);
            assert(!is_ws(s[s.len() - 2]));
            assert(t.last() == s[s.len() - 2]);
        } else if s.len() >= 2 && !is_ws(s[s.len() - 2]) {
            assert(t.last() == s[s.len() - 2]);
            lemma_join_extend_last(words(t), c);
            assert(t.push(c) =~= s);
        } else if s.len() == 1 {
            assert(words(t).len() == 0);
            assert(seq![c] =~= s);
        } else {
            let u = t.drop_last();
            assert(t.last() == s[s.len() - 2]);
            assert(t.last() == ' ');
            assert(t.len() >= 2);
            assert(u.len() > 0);
            let w = words(t);
            assert(join_words(w) == u);
            lemma_join_nonempty(w);
            assert(w.push(seq![c]).drop_last() =~= w);
            assert(join_words(w.push(seq![c])) == u + seq![' '] + seq![c]);
            assert(u + seq![' '] + seq![c] =~= s);
        }
    }
}

/// Text already fit for display comes through sanitising unchanged when it fits the limit.
pub proof fn lemma_plain_text_survives(s: Seq<char>, max: nat)
    requires
        plain_text(s),
        s.len() <= max,
    ensures
        sanitized_text(s, max) == Some(s),
{
    lemma_drop_controls_none(s);
    lemma_collapse_spaced(s);
}

/// `s` with its control characters (other than whitespace) removed.
fn without_controls(s: &Vec<char>) -> (v: Vec<char>)
    ensures
        v@ == drop_controls(s@),
{
    let mut v: Vec<char> = Vec::new();
    let mut i: usize = 0;
    while i < s.len()
        invariant
            i <= s@.len(),
            v@ == drop_controls(s@.take(i as int)),
        decreases s@.len() - i,
    {
        let c = s[i];
        assert(s@.take(i + 1).drop_last() =~= s@.take(i as int));
        let n = c as u32;
        let control = n <= 0x1f || (0x7f <= n && n <= 0x9f);
        if !control || is_whitespace_char(c) {
            v.push(c);
        }
        i = i + 1;
    }
    assert(s@.take(s@.len() as int) =~= s@);
    v
}

/// `s` with every whitespace run made one space and the ends trimmed.
fn collapsed(s: &Vec<char>) -> (v: Vec<char>)
    ensures
        v@ == collapse_whitespace(s@),
{
    let mut v: Vec<char> = Vec::new();
    let mut i: usize = 0;
    let mut in_word = false;
    while i < s.len()
        invariant
            i <= s@.len(),
            v@ == join_words(words(s@.take(i as int))),
            in_word == (i > 0 && !is_ws(s@[i - 1])),
        decreases s@.len() - i,
    {
        let c = s[i];
        let ghost pre = s@.take(i as int);
        let ghost cur = s@.take(i + 1);
        proof {
            assert(cur.drop_last() =~= pre);
            assert(cur.last() == c);
            if i > 0 {
                assert(cur[cur.len() - 2] == s@[i - 1]);
                assert(pre.last() == s@[i - 1]);
            }
            lemma_words_shape(pre);
            lemma_join_nonempty(words(pre));
        }
        if is_whitespace_char(c) {
            in_word = false;
        } else if in_word {
            proof {
                lemma_join_extend_last(words(pre), c);
            }
            v.push(c);
        } else {
            if v.len() > 0 {
                v.push(' ');
            }
            v.push(c);
            in_word = true;
            proof {
                let w = words(pre);
                if w.len() == 0 {
                    assert(v@ =~= join_words(w.push(seq![c])));
                } else {
                    assert(w.push(seq![c]).drop_last() =~= w);
                    assert(v@ =~= join_words(w.push(seq![c])));
                }
            }
        }
        i = i + 1;
    }
    assert(s@.take(s@.len() as int) =~= s@);
    v
}

/// Cleans a name or description from a remote catalog for display: drops control
/// characters, collapses whitespace, keeps at most `max_chars` characters, and gives
/// nothing when no character is left.
pub fn sanitize_catalog_text(value: String, max_chars: usize) -> (r: Option<String>)
    ensures
        opt_view(r) == sanitized_text(value@, max_chars as nat),
{
    let chars = str_chars(value.as_str());
    let kept = without_controls(&chars);
    let c = collapsed(&kept);
    let mut t: Vec<char> = Vec::new();
    let mut i: usize = 0;
    while i < c.len() && i < max_chars
        invariant
            i <= c@.len(),
            i <= max_chars,
            t@ == c@.take(i as int),
        decreases c@.len() - i,
    {
        t.push(c[i]);
        i = i + 1;
        assert(t@ =~= c@.take(i as int));
    }
    proof {
        if c@.len() <= max_chars {
            assert(c@.take(i as int) =~= c@);
        }
    }
    if t.len() == 0 {
        None
    } else {
        Some(string_from_chars(&t))
    }
}

/// Whether a model id from a remote catalog is safe to store and display.
pub fn is_safe_model_id(id: &str) -> (r: bool)
    ensures
        r == safe_model_id(id@),
{
    let chars = str_chars(id);
    if chars.len() == 0 {
        return false;
    }
    let mut bytes: usize = 0;
    let mut i: usize = 0;
    while i < chars.len()
        invariant
            i <= chars@.len(),
            chars@ == id@,
            bytes == utf8_len(chars@.take(i as int)),
            bytes <= MAX_MODEL_ID_BYTES,
            forall|j: int| 0 <= j < i ==> !is_ctrl(#[trigger] chars@[j]) && !is_ws(chars@[j]),
        decreases chars@.len() - i,
    {
        let c = chars[i];
        let n = c as u32;
        assert(chars@.take(i + 1).drop_last() =~= chars@.take(i as int));
        let width: usize = if n < 0x80 {
            1
        } else if n < 0x800 {
            2
        } else if n < 0x10000 {
            3
        } else {
            4
        };
        if bytes + width > MAX_MODEL_ID_BYTES {
            proof {
                lemma_utf8_len_prefix(chars@, i as int + 1);
            }
            return false;
        }
        bytes = bytes + width;
        if n <= 0x1f || (0x7f <= n && n <= 0x9f) || is_whitespace_char(c) {
            return false;
        }
        i = i + 1;
    }
    assert(chars@.take(chars@.len() as int) =~= chars@);
    true
}

/// A prefix takes no more bytes than the whole text.
proof fn lemma_utf8_len_prefix(s: Seq<char>, k: int)
    requires
        0 <= k <= s.len(),
    ensures
        utf8_len(s.take(k)) <= utf8_len(s),
    decreases s.len() - k,
{
    if k < s.len() {
        lemma_utf8_len_prefix(s, k + 1);
        assert(s.take(k + 1).drop_last() =~= s.take(k));
    } else {
        assert(s.take(k) =~= s);
    }
}

} // verus!
