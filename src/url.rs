//! The request URL for the collage service.
use vstd::prelude::*;
use crate::params::{is_size, period_token, size_token};
use crate::text::{eq_str, push_str, string_of};

verus! {

/// The fixed part of every request, up to the user name.
pub open spec fn endpoint() -> Seq<char> {
    "https://tapmusic.net/collage.php?user="@
}

/// The parameters that every request carries: user, period and size, in that order.
pub open spec fn base_query(user: Seq<char>, size: Seq<char>, time: Seq<char>) -> Seq<char> {
    endpoint() + user + "&type="@ + time + "&size="@ + size
}

/// The optional parameters: each is present only when its flag reads `"true"`.
pub open spec fn flag_params(caption: Seq<char>, playcount: Seq<char>) -> Seq<char> {
    (if caption == "true"@ {
        "&caption=true"@
    } else {
        Seq::empty()
    }) + (if playcount == "true"@ {
        "&playcount=true"@
    } else {
        Seq::empty()
    })
}

/// The whole request URL.
pub open spec fn url_of(
    user: Seq<char>,
    size: Seq<char>,
    time: Seq<char>,
    caption: Seq<char>,
    playcount: Seq<char>,
) -> Seq<char> {
    base_query(user, size, time) + flag_params(caption, playcount)
}

/// Whether `t` occurs in `s` starting at position `i`.
pub open spec fn occurs_at(s: Seq<char>, t: Seq<char>, i: int) -> bool {
    0 <= i && i + t.len() <= s.len() && s.subrange(i, i + t.len()) == t
}

/// Whether `t` occurs in `s` at some position.
pub open spec fn contains(s: Seq<char>, t: Seq<char>) -> bool {
    exists|i: int| #[trigger] occurs_at(s, t, i)
}

/// Every `&` in `s` is followed, within `s`, by a character other than `ch`.
pub open spec fn amp_not_before(s: Seq<char>, ch: char) -> bool {
    forall|i: int| 0 <= i < s.len() && #[trigger] s[i] == '&' ==> i + 1 < s.len() && s[i + 1] != ch
}

/// Whether `s` holds no `&`.
pub open spec fn amp_free(s: Seq<char>) -> bool {
    forall|i: int| 0 <= i < s.len() ==> #[trigger] s[i] != '&'
}

/// Builds the request URL from normalised values: `size` as `nxn`, `time` as
/// the service's period name, and the flags as `"true"` or `"false"`.
/// The user name is placed as given, without percent-encoding.
pub fn build_url(user: &str, size: &str, time: &str, caption: &str, playcount: &str) -> (r: String)
    ensures
        r@ == url_of(user@, size@, time@, caption@, playcount@),
{
    let mut out: Vec<char> = Vec::new();
    push_str(&mut out, "https://tapmusic.net/collage.php?user=");
    push_str(&mut out, user);
    push_str(&mut out, "&type=");
    push_str(&mut out, time);
    push_str(&mut out, "&size=");
    push_str(&mut out, size);
    if eq_str(caption, "true") {
        push_str(&mut out, "&caption=true");
    }
    if eq_str(playcount, "true") {
        push_str(&mut out, "&playcount=true");
    }
    assert(out@ =~= url_of(user@, size@, time@, caption@, playcount@));
    string_of(&out)
}

/// For each of the grid sizes, the URL carries `type=<period>&size=<n>x<n>`
/// right after the user name, whatever the flags.
pub proof fn lemma_type_then_size(
    user: Seq<char>,
    n: Seq<char>,
    time: Seq<char>,
    caption: Seq<char>,
    playcount: Seq<char>,
)
    requires
        is_size(n),
    ensures
        ({
            let url = url_of(user, size_token(n), period_token(time), caption, playcount);
            let k: int = (endpoint().len() + user.len()) as int;
            let part = "&type="@ + period_token(time) + "&size="@ + n + "x"@ + n;
            &&& url.subrange(0, k) == endpoint() + user
            &&& url.subrange(k, k + part.len() as int) == part
        }),
{
    let url = url_of(user, size_token(n), period_token(time), caption, playcount);
    let k: int = (endpoint().len() + user.len()) as int;
    let part = "&type="@ + period_token(time) + "&size="@ + n + "x"@ + n;
    assert(url =~= (endpoint() + user) + part + flag_params(caption, playcount));
    assert(url.subrange(0, k) =~= endpoint() + user);
    assert(url.subrange(k, k + part.len() as int) =~= part);
}

/// A sequence that lacks one of the characters of `t` does not contain `t`.
proof fn lemma_missing_char(s: Seq<char>, t: Seq<char>, k: int)
    requires
        0 <= k < t.len(),
        forall|j: int| 0 <= j < s.len() ==> s[j] != t[k],
    ensures
        !contains(s, t),
{
    assert forall|i: int| !#[trigger] occurs_at(s, t, i) by {
        if 0 <= i && i + t.len() <= s.len() {
            assert(s.subrange(i, i + t.len())[k] == s[i + k]);
        }
    }
}

/// The optional parameters name the caption exactly when its flag is `"true"`,
/// and the play count exactly when its flag is; neither is ever sent as `false`.
pub proof fn lemma_flags_only_when_true(caption: Seq<char>, playcount: Seq<char>)
    ensures
        contains(flag_params(caption, playcount), "caption"@) <==> caption == "true"@,
        contains(flag_params(caption, playcount), "playcount"@) <==> playcount == "true"@,
        !contains(flag_params(caption, playcount), "false"@),
{
    reveal_strlit("true");
    reveal_strlit("false");
    reveal_strlit("caption");
    reveal_strlit("playcount");
    reveal_strlit("&caption=true");
    reveal_strlit("&playcount=true");
    let f = flag_params(caption, playcount);
    let c = "&caption=true"@;
    if caption == "true"@ {
        assert(f.subrange(1, 1 + "caption"@.len() as int) =~= "caption"@);
        assert(occurs_at(f, "caption"@, 1));
    } else {
        lemma_missing_char(f, "caption"@, 4);
    }
    if playcount == "true"@ {
        let off: int = if caption == "true"@ { c.len() as int } else { 0 };
        assert(f.subrange(off + 1, off + 1 + "playcount"@.len() as int) =~= "playcount"@);
        assert(occurs_at(f, "playcount"@, off + 1));
    } else {
        lemma_missing_char(f, "playcount"@, 3);
    }
    lemma_missing_char(f, "false"@, 0);
}

proof fn lemma_amp_concat(a: Seq<char>, b: Seq<char>, ch: char)
    requires
        amp_not_before(a, ch),
        amp_not_before(b, ch),
    ensures
        amp_not_before(a + b, ch),
{
    let s = a + b;
    assert forall|i: int| 0 <= i < s.len() && #[trigger] s[i] == '&' implies i + 1 < s.len() && s[i
        + 1] != ch by {
        if i < a.len() {
            assert(a[i] == '&');
        } else {
            assert(b[i - a.len()] == '&');
        }
    }
}

proof fn lemma_amp_free(s: Seq<char>, ch: char)
    requires
        amp_free(s),
    ensures
        amp_not_before(s, ch),
{
}

/// In `a + t + b`, where `t` is `&`, then `ch`, then no `&`, the only `&`
/// followed by `ch` is the first character of `t`.
proof fn lemma_single_pair(a: Seq<char>, t: Seq<char>, b: Seq<char>, ch: char, i: int)
    requires
        amp_not_before(a, ch),
        amp_not_before(b, ch),
        t.len() >= 2,
        t[0] == '&',
        t[1] == ch,
        amp_free(t.drop_first()),
        0 <= i,
        i + 1 < (a + t + b).len(),
        (a + t + b)[i] == '&',
        (a + t + b)[i + 1] == ch,
    ensures
        i == a.len(),
{
    let s = a + t + b;
    if i < a.len() {
        assert(a[i] == '&');
    } else if i < a.len() + t.len() {
        if i > a.len() {
            assert(t.drop_first()[i - a.len() - 1] == '&');
        }
    } else {
        assert(b[i - a.len() - t.len()] == '&');
    }
}

/// When no `&` occurs in the user name, size or period, the URL names the
/// caption exactly when its flag is `"true"` and the play count exactly when
/// its flag is, and wherever either parameter occurs its value is `true`.
pub proof fn lemma_url_flags(
    user: Seq<char>,
    size: Seq<char>,
    time: Seq<char>,
    caption: Seq<char>,
    playcount: Seq<char>,
)
    requires
        amp_free(user),
        amp_free(size),
        amp_free(time),
    ensures
        ({
            let url = url_of(user, size, time, caption, playcount);
            &&& contains(url, "&caption="@) <==> caption == "true"@
            &&& contains(url, "&playcount="@) <==> playcount == "true"@
            &&& forall|i: int| #[trigger]
                occurs_at(url, "&caption="@, i) ==> occurs_at(url, "&caption=true"@, i)
            &&& forall|i: int| #[trigger]
                occurs_at(url, "&playcount="@, i) ==> occurs_at(url, "&playcount=true"@, i)
        }),
{
    reveal_strlit("https://tapmusic.net/collage.php?user=");
    reveal_strlit("&type=");
    reveal_strlit("&size=");
    reveal_strlit("&caption=");
    reveal_strlit("&playcount=");
    reveal_strlit("&caption=true");
    reveal_strlit("&playcount=true");
    reveal_strlit("true");
    let url = url_of(user, size, time, caption, playcount);
    let c = "&caption=true"@;
    let p = "&playcount=true"@;
    let cp: Seq<char> = if caption == "true"@ { c } else { Seq::empty() };
    let pp: Seq<char> = if playcount == "true"@ { p } else { Seq::empty() };
    let base = base_query(user, size, time);
    assert(url =~= base + cp + pp);
    assert(amp_free(endpoint()));
    assert(amp_free(c.drop_first()));
    assert(amp_free(p.drop_first()));
    assert(amp_free(Seq::<char>::empty()));
    // The fixed parts and the values are free of `&` before `c` and before `p`.
    let ty = "&type="@;
    let sz = "&size="@;
    assert(amp_not_before(ty, 'c') && amp_not_before(ty, 'p'));
    assert(amp_not_before(sz, 'c') && amp_not_before(sz, 'p'));
    assert(amp_not_before(c, 'p'));
    assert(amp_not_before(p, 'c'));
    assert(amp_not_before(Seq::<char>::empty(), 'c'));
    assert(amp_not_before(Seq::<char>::empty(), 'p'));
    assert(base =~= endpoint() + user + ty + time + sz + size);
    assert forall|ch: char| ch == 'c' || ch == 'p' implies amp_not_before(base, ch) by {
        lemma_amp_free(endpoint(), ch);
        lemma_amp_free(user, ch);
        lemma_amp_free(time, ch);
        lemma_amp_free(size, ch);
        lemma_amp_concat(endpoint(), user, ch);
        lemma_amp_concat(endpoint() + user, ty, ch);
        lemma_amp_concat(endpoint() + user + ty, time, ch);
        lemma_amp_concat(endpoint() + user + ty + time, sz, ch);
        lemma_amp_concat(endpoint() + user + ty + time + sz, size, ch);
    }
    assert(amp_not_before(base, 'c'));
    assert(amp_not_before(base, 'p'));
    // The caption parameter.
    assert forall|i: int| #[trigger] occurs_at(url, "&caption="@, i) implies caption == "true"@
        && occurs_at(url, c, i) by {
        assert(url.subrange(i, i + 9)[0] == url[i]);
        assert(url.subrange(i, i + 9)[1] == url[i + 1]);
        if caption == "true"@ {
            lemma_single_pair(base, c, pp, 'c', i);
            assert(url.subrange(i, i + 13) =~= c);
        } else {
            lemma_amp_concat(base, pp, 'c');
            assert(url =~= base + pp);
            assert((base + pp)[i] == '&');
        }
    }
    if caption == "true"@ {
        assert(url.subrange(base.len() as int, base.len() as int + 9) =~= "&caption="@);
        assert(occurs_at(url, "&caption="@, base.len() as int));
    }
    // The play-count parameter.
    lemma_amp_concat(base, cp, 'p');
    assert forall|i: int| #[trigger] occurs_at(url, "&playcount="@, i) implies playcount
        == "true"@ && occurs_at(url, p, i) by {
        assert(url.subrange(i, i + 11)[0] == url[i]);
        assert(url.subrange(i, i + 11)[1] == url[i + 1]);
        if playcount == "true"@ {
            lemma_single_pair(base + cp, p, Seq::empty(), 'p', i);
            assert(url =~= base + cp + p + Seq::<char>::empty());
            assert(url.subrange(i, i + 15) =~= p);
        } else {
            assert(url =~= base + cp);
            assert((base + cp)[i] == '&');
        }
    }
    if playcount == "true"@ {
        let k = (base + cp).len() as int;
        assert(url.subrange(k, k + 11) =~= "&playcount="@);
        assert(occurs_at(url, "&playcount="@, k));
    }
}

/// Two builds from the same values give the same URL.
pub proof fn lemma_build_deterministic(
    user: Seq<char>,
    size: Seq<char>,
    time: Seq<char>,
    caption: Seq<char>,
    playcount: Seq<char>,
    first: Seq<char>,
    second: Seq<char>,
)
    requires
        first == url_of(user, size, time, caption, playcount),
        second == url_of(user, size, time, caption, playcount),
    ensures
        first == second,
{
}

} // verus!
