use youtube_player_api::{PlayerOptions, PlayerVars};

#[test]
fn player_vars_default() {
    let player_vars = PlayerVars::new();

    assert_eq!(None, player_vars.autoplay);
    assert_eq!(None, player_vars.controls);
}

#[test]
fn player_vars_set() {
    let player_vars = PlayerVars::new().autoplay(0).controls(1);

    assert_eq!(Some(0), player_vars.autoplay);
    assert_eq!(Some(1), player_vars.controls);
}

#[test]
fn player_options_default() {
    let player_options = PlayerOptions::new();

    assert_eq!(None, player_options.video_id);
    assert_eq!(None, player_options.width);
    assert_eq!(None, player_options.height);
    assert_eq!(None, player_options.player_vars);
}

#[test]
fn player_options_set() {
    let player_vars = PlayerVars::new();
    let player_options = PlayerOptions::new()
        .video_id("abcdefghij".to_owned())
        .width(640)
        .height(360)
        .player_vars(player_vars.clone());

    assert_eq!(Some("abcdefghij".to_owned()), player_options.video_id);
    assert_eq!(Some(640), player_options.width);
    assert_eq!(Some(360), player_options.height);
    assert_eq!(Some(player_vars), player_options.player_vars);
}

#[test]
fn builders_keep_other_fields() {
    let vars = PlayerVars::new().controls(0).autoplay(1).controls(1);
    assert_eq!(Some(1), vars.autoplay);
    assert_eq!(Some(1), vars.controls);

    let options = PlayerOptions::new().width(10).height(20).width(30);
    assert_eq!(Some(30), options.width);
    assert_eq!(Some(20), options.height);
    assert_eq!(None, options.video_id);
}
