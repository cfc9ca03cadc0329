use vstd::prelude::*;

verus! {

/// The full argument list handed to the external media player: the fixed
/// flag set, then the file to play.
pub open spec fn player_args_view(path: Seq<char>) -> Seq<Seq<char>> {
    seq![
        "--fullscreen"@,
        "--no-terminal"@,
        "--vo=gpu-next"@,
        "--gpu-context=x11egl"@,
        "--hwdec=vaapi"@,
        "--audio-device=auto"@,
        "--audio-channels=stereo"@,
        "--volume-max=200"@,
        path,
    ]
}

/// Builds the argument list for playing one media file.
pub fn player_args(media_path: &str) -> (r: Vec<String>)
    ensures
        r@.map_values(|s: String| s@) == player_args_view(media_path@),
{
    let mut r: Vec<String> = Vec::new();
    r.push(String::from_str("--fullscreen"));
    r.push(String::from_str("--no-terminal"));
    r.push(String::from_str("--vo=gpu-next"));
    r.push(String::from_str("--gpu-context=x11egl"));
    r.push(String::from_str("--hwdec=vaapi"));
    r.push(String::from_str("--audio-device=auto"));
    r.push(String::from_str("--audio-channels=stereo"));
    r.push(String::from_str("--volume-max=200"));
    r.push(String::from_str(media_path));
    proof {
        assert(r@.map_values(|s: String| s@) =~= player_args_view(media_path@));
    }
    r
}

} // verus!
