//! From the raw command-line values to the request URL and the output file name.
use vstd::prelude::*;
use crate::naming::{default_name, file_name_at, file_name_of};
use crate::params::{
    flag_token, is_flag, is_period, is_size, parse_time, period_token, size_param, size_token,
    str_to_bool, valid_flag, valid_period, valid_size,
};
use crate::stamp::{local_now, LocalTime};
use crate::url::{build_url, url_of};
use crate::text::{chars_of, string_of};

verus! {

/// A raw value outside the set the service accepts.
#[derive(Clone, Copy, Debug, PartialEq, Eq)]
pub enum ArgError {
    /// The grid size is not 3, 4, 5 or 10.
    Size,
    /// The period is not 7d, 1m, 3m, 6m, 12m or all.
    Time,
    /// The caption flag is not t or f.
    Caption,
    /// The play-count flag is not t or f.
    Playcount,
}

/// What one run fetches and where it saves it.
#[derive(Clone, Debug)]
pub struct Plan {
    pub url: String,
    pub file_name: String,
}

/// The first raw value that is out of its set, if any.
pub open spec fn arg_error(
    size: Seq<char>,
    time: Seq<char>,
    caption: Seq<char>,
    playcount: Seq<char>,
) -> Option<ArgError> {
    if !is_size(size) {
        Some(ArgError::Size)
    } else if !is_period(time) {
        Some(ArgError::Time)
    } else if !is_flag(caption) {
        Some(ArgError::Caption)
    } else if !is_flag(playcount) {
        Some(ArgError::Playcount)
    } else {
        None
    }
}

/// The request URL for valid raw values.
pub open spec fn plan_url(
    user: Seq<char>,
    size: Seq<char>,
    time: Seq<char>,
    caption: Seq<char>,
    playcount: Seq<char>,
) -> Seq<char> {
    url_of(user, size_token(size), period_token(time), flag_token(caption), flag_token(playcount))
}

fn check_args(size: &str, time: &str, caption: &str, playcount: &str) -> (r: Option<ArgError>)
    ensures
        r == arg_error(size@, time@, caption@, playcount@),
{
    if !valid_size(size) {
        Some(ArgError::Size)
    } else if !valid_period(time) {
        Some(ArgError::Time)
    } else if !valid_flag(caption) {
        Some(ArgError::Caption)
    } else if !valid_flag(playcount) {
        Some(ArgError::Playcount)
    } else {
        None
    }
}

/// Checks the raw values and derives the URL and the file name for a
/// collage made at the wall-clock time `now`.
pub fn plan_at(
    user: &str,
    size: &str,
    time: &str,
    caption: &str,
    playcount: &str,
    filename: &str,
    now: &LocalTime,
) -> (r: Result<Plan, ArgError>)
    ensures
        match arg_error(size@, time@, caption@, playcount@) {
            Some(e) => r == Err::<Plan, ArgError>(e),
            None => r is Ok && r->Ok_0.url@ == plan_url(user@, size@, time@, caption@, playcount@)
                && r->Ok_0.file_name@ == file_name_of(
                user@,
                size_token(size@),
                period_token(time@),
                filename@,
                *now,
            ),
        },
{
    match check_args(size, time, caption, playcount) {
        Some(e) => Err(e),
        None => {
            proof {
                reveal_strlit("t");
                reveal_strlit("f");
                reveal_strlit("7d");
                reveal_strlit("1m");
                reveal_strlit("3m");
                reveal_strlit("6m");
                reveal_strlit("12m");
                reveal_strlit("all");
            }
            let grid = size_param(size);
            let period = parse_time(time);
            let show_caption = str_to_bool(&string_of(&chars_of(caption)));
            let show_playcount = str_to_bool(&string_of(&chars_of(playcount)));
            let url = build_url(
                user,
                grid.as_str(),
                period.as_str(),
                show_caption.as_str(),
                show_playcount.as_str(),
            );
            let file_name = file_name_at(user, grid.as_str(), period.as_str(), filename, now);
            Ok(Plan { url, file_name })
        },
    }
}

/// Checks the raw values and derives the URL and the file name for a
/// collage made now.
pub fn plan(
    user: &str,
    size: &str,
    time: &str,
    caption: &str,
    playcount: &str,
    filename: &str,
) -> (r: Result<Plan, ArgError>)
    ensures
        match arg_error(size@, time@, caption@, playcount@) {
            Some(e) => r == Err::<Plan, ArgError>(e),
            None => r is Ok && r->Ok_0.url@ == plan_url(user@, size@, time@, caption@, playcount@)
                && (filename@.len() > 0 ==> r->Ok_0.file_name@ == filename@) && (filename@.len()
                == 0 ==> exists|t: LocalTime|
                t.wf() && r->Ok_0.file_name@ == #[trigger] default_name(
                    user@,
                    size_token(size@),
                    period_token(time@),
                    t,
                )),
        },
{
    let now = local_now();
    plan_at(user, size, time, caption, playcount, filename, &now)
}

} // verus!
