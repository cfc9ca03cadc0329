use vstd::prelude::*;

use crate::digits::{decimal_digits, u32_to_decimal};
use rand::Rng;

verus! {

/// The asset path served for a drawn number, as a sequence of characters.
/// The number range 1..=11 is partitioned into four buckets, each with its
/// own video file; numbers outside the range select nothing.
pub open spec fn video_path_view(n: u32) -> Option<Seq<char>> {
    if n == 11 {
        Some("assets/video4.mp4"@)
    } else if 5 <= n && n <= 7 {
        Some("assets/video1.mp4"@)
    } else if 1 <= n && n <= 4 {
        Some("assets/video2.mp4"@)
    } else if 8 <= n && n <= 10 {
        Some("assets/video3.mp4"@)
    } else {
        None
    }
}

/// The message shown beside a drawn number.
pub open spec fn message_view(n: u32) -> Seq<char> {
    if n == 11 {
        "P diddy loves you"@
    } else if 1 <= n && n <= 10 {
        "Number Of Inches: "@ + decimal_digits(n as nat)
    } else {
        "Invalid number"@
    }
}

/// The view of an optional owned string, for stating contracts over
/// `Option<String>` results.
pub open spec fn opt_str_view(o: Option<String>) -> Option<Seq<char>> {
    match o {
        Some(s) => Some(s@),
        None => None,
    }
}

/// Picks the video file for a drawn number.
pub fn select_video_path(n: u32) -> (r: Option<String>)
    ensures
        opt_str_view(r) == video_path_view(n),
{
    if n == 11 {
        Some(String::from_str("assets/video4.mp4"))
    } else if 5 <= n && n <= 7 {
        Some(String::from_str("assets/video1.mp4"))
    } else if 1 <= n && n <= 4 {
        Some(String::from_str("assets/video2.mp4"))
    } else if 8 <= n && n <= 10 {
        Some(String::from_str("assets/video3.mp4"))
    } else {
        None
    }
}

/// Builds the message shown beside a drawn number.
pub fn message_for(n: u32) -> (r: String)
    ensures
        r@ == message_view(n),
{
    if n == 11 {
        String::from_str("P diddy loves you")
    } else if 1 <= n && n <= 10 {
        let mut s = String::from_str("Number Of Inches: ");
        let d = u32_to_decimal(n);
        s.append(d.as_str());
        s
    } else {
        String::from_str("Invalid number")
    }
}

/// What the endpoint reports for one draw: the number, the video selected
/// for it (if any), and the message shown beside it.
pub struct Response {
    pub number: u32,
    pub video_path: Option<String>,
    pub message: String,
}

/// The response fields are exactly what the partition and the message rules
/// give for the number `n`.
pub open spec fn response_matches(r: Response, n: u32) -> bool {
    &&& r.number == n
    &&& opt_str_view(r.video_path) == video_path_view(n)
    &&& r.message@ == message_view(n)
}

/// Assembles the response for a given number.
pub fn generate_response(n: u32) -> (r: Response)
    ensures
        response_matches(r, n),
{
    let video_path = select_video_path(n);
    let message = message_for(n);
    Response { number: n, video_path, message }
}

/// Relies on rand::Rng::gen_range on the thread-local generator: the sampled
/// value lies within the given range (here 1..=11, which is not empty, so the
/// call does not panic).
#[verifier::external_body]
fn draw_number() -> (r: u32)
    ensures
        1 <= r && r <= 11,
{
    rand::thread_rng().gen_range(1..=11)
}

/// Draws a fresh number and assembles its response. Whatever the generator
/// returns, the number lies in the declared domain and the fields agree with
/// the partition and the message rules.
pub fn generate() -> (r: Response)
    ensures
        1 <= r.number && r.number <= 11,
        response_matches(r, r.number),
{
    let n = draw_number();
    generate_response(n)
}

/// The first bucket of the partition: the smallest numbers.
pub open spec fn in_low_bucket(n: u32) -> bool {
    1 <= n && n <= 4
}

/// The second bucket of the partition: the middle numbers.
pub open spec fn in_mid_bucket(n: u32) -> bool {
    5 <= n && n <= 7
}

/// The third bucket of the partition: the high numbers.
pub open spec fn in_high_bucket(n: u32) -> bool {
    8 <= n && n <= 10
}

/// The last bucket of the partition: the top number alone.
pub open spec fn in_top_bucket(n: u32) -> bool {
    n == 11
}

/// How many buckets hold the number `n`.
pub open spec fn bucket_count(n: u32) -> int {
    (if in_low_bucket(n) {
        1int
    } else {
        0int
    }) + (if in_mid_bucket(n) {
        1int
    } else {
        0int
    }) + (if in_high_bucket(n) {
        1int
    } else {
        0int
    }) + (if in_top_bucket(n) {
        1int
    } else {
        0int
    })
}

/// The partition of the declared domain is exhaustive and non-overlapping:
/// every number from 1 to 11 falls in exactly one bucket, and a video is
/// selected for it.
pub proof fn lemma_partition_exhaustive_disjoint(n: u32)
    requires
        1 <= n && n <= 11,
    ensures
        bucket_count(n) == 1,
        video_path_view(n) is Some,
{
}

/// Which bucket a number falls in determines the selected video, and a
/// number outside the declared domain selects none.
pub proof fn lemma_bucket_selects_video(n: u32)
    ensures
        in_low_bucket(n) ==> video_path_view(n) == Some("assets/video2.mp4"@),
        in_mid_bucket(n) ==> video_path_view(n) == Some("assets/video1.mp4"@),
        in_high_bucket(n) ==> video_path_view(n) == Some("assets/video3.mp4"@),
        in_top_bucket(n) ==> video_path_view(n) == Some("assets/video4.mp4"@),
        !(1 <= n && n <= 11) ==> video_path_view(n) is None,
{
}

} // verus!
