use video_picker::digits::u32_to_decimal;
use video_picker::player::player_args;

#[test]
fn single_digits_render() {
    assert_eq!(u32_to_decimal(0), "0");
    assert_eq!(u32_to_decimal(9), "9");
}

#[test]
fn multi_digit_numbers_render() {
    assert_eq!(u32_to_decimal(10), "10");
    assert_eq!(u32_to_decimal(11), "11");
    assert_eq!(u32_to_decimal(305), "305");
    assert_eq!(u32_to_decimal(u32::MAX), "4294967295");
}

#[test]
fn player_args_hold_flags_then_file() {
    let args = player_args("assets/video3.mp4");
    assert_eq!(
        args,
        vec![
            "--fullscreen".to_string(),
            "--no-terminal".to_string(),
            "--vo=gpu-next".to_string(),
            "--gpu-context=x11egl".to_string(),
            "--hwdec=vaapi".to_string(),
            "--audio-device=auto".to_string(),
            "--audio-channels=stereo".to_string(),
            "--volume-max=200".to_string(),
            "assets/video3.mp4".to_string(),
        ]
    );
}

#[test]
fn player_args_end_with_the_given_path() {
    let args = player_args("/tmp/clip.mkv");
    assert_eq!(args.len(), 9);
    assert_eq!(args[8], "/tmp/clip.mkv");
}
