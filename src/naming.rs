//! The name of the file a collage is saved under.
use vstd::prelude::*;
use crate::stamp::{local_now, push_stamp, stamp_text, lemma_stamp_injective, LocalTime};
use crate::text::{chars_of, push_str, string_of};

verus! {

/// The generated name `<user>_<period>_<size>_<stamp>.jpg`.
pub open spec fn default_name(
    user: Seq<char>,
    size: Seq<char>,
    time: Seq<char>,
    now: LocalTime,
) -> Seq<char> {
    user + "_"@ + time + "_"@ + size + "_"@ + stamp_text(now) + ".jpg"@
}

/// The chosen name when one was given, else the generated one.
pub open spec fn file_name_of(
    user: Seq<char>,
    size: Seq<char>,
    time: Seq<char>,
    filename: Seq<char>,
    now: LocalTime,
) -> Seq<char> {
    if filename.len() == 0 {
        default_name(user, size, time, now)
    } else {
        filename
    }
}

/// The file name for a collage made at the wall-clock time `now`: `filename`
/// itself when it is not empty, else a name built from the user, the
/// normalised period and size, and `now`.
pub fn file_name_at(user: &str, size: &str, time: &str, filename: &str, now: &LocalTime) -> (r:
    String)
    ensures
        r@ == file_name_of(user@, size@, time@, filename@, *now),
{
    if filename.is_empty() {
        let mut out = chars_of(user);
        push_str(&mut out, "_");
        push_str(&mut out, time);
        push_str(&mut out, "_");
        push_str(&mut out, size);
        push_str(&mut out, "_");
        push_stamp(&mut out, now);
        push_str(&mut out, ".jpg");
        string_of(&out)
    } else {
        string_of(&chars_of(filename))
    }
}

/// The file name for a collage made now: `filename` itself when it is not
/// empty, else a name built from the user, the normalised period and size,
/// and the current local time.
pub fn parse_file_name(user: &str, size: &str, time: &str, filename: &str) -> (r: String)
    ensures
        filename@.len() > 0 ==> r@ == filename@,
        filename@.len() == 0 ==> exists|t: LocalTime|
            t.wf() && r@ == #[trigger] default_name(user@, size@, time@, t),
{
    let now = local_now();
    file_name_at(user, size, time, filename, &now)
}

/// Generated names for two different wall-clock times differ; a given name
/// is used as it stands, whatever the other values.
pub proof fn lemma_names_distinct(
    user: Seq<char>,
    size: Seq<char>,
    time: Seq<char>,
    t1: LocalTime,
    t2: LocalTime,
)
    requires
        t1.wf(),
        t2.wf(),
        t1 != t2,
    ensures
        file_name_of(user, size, time, Seq::empty(), t1) != file_name_of(
            user,
            size,
            time,
            Seq::empty(),
            t2,
        ),
{
    let p = user + "_"@ + time + "_"@ + size + "_"@;
    let n1 = default_name(user, size, time, t1);
    let n2 = default_name(user, size, time, t2);
    if n1 == n2 {
        let s1 = stamp_text(t1);
        let s2 = stamp_text(t2);
        assert(n1 =~= p + s1 + ".jpg"@);
        assert(n2 =~= p + s2 + ".jpg"@);
        assert(s1.len() == s2.len());
        assert(n1.subrange(p.len() as int, (p.len() + s1.len()) as int) =~= s1);
        assert(n2.subrange(p.len() as int, (p.len() + s2.len()) as int) =~= s2);
        lemma_stamp_injective(t1, t2);
    }
}

/// A non-empty chosen name is the file name, whatever the other values.
pub proof fn lemma_given_name_kept(
    user: Seq<char>,
    size: Seq<char>,
    time: Seq<char>,
    filename: Seq<char>,
    now: LocalTime,
)
    requires
        filename.len() > 0,
    ensures
        file_name_of(user, size, time, filename, now) == filename,
{
}

} // verus!
