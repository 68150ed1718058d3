use gltut::demo::Demo;

#[test]
fn select_finds_each_demo_by_its_token() {
    assert_eq!(Demo::select("ch_2"), Some(Demo::HelloColor));
    assert_eq!(Demo::select("ch_3_3"), Some(Demo::MovingTriangle));
    assert_eq!(Demo::select("ch_4_3"), Some(Demo::Perspective));
    assert_eq!(Demo::select("ch_5_1"), Some(Demo::Overlap));
}

#[test]
fn select_knows_no_other_token() {
    for token in ["", "ch", "ch_", "ch_1", "ch_3", "ch_5", "ch_6_1", "main", "Unimplemented"] {
        assert_eq!(Demo::select(token), None, "{token:?}");
    }
}

#[test]
fn select_takes_the_whole_token() {
    assert_eq!(Demo::select("ch_2 "), None);
    assert_eq!(Demo::select(" ch_2"), None);
    assert_eq!(Demo::select("ch_2\n"), None);
    assert_eq!(Demo::select("ch_2_"), None);
    assert_eq!(Demo::select("ch_3_"), None);
    assert_eq!(Demo::select("ch_3_33"), None);
    assert_eq!(Demo::select("ch_5_10"), None);
    assert_eq!(Demo::select("h_5_1"), None);
}

#[test]
fn select_tells_letter_case_apart() {
    assert_eq!(Demo::select("CH_2"), None);
    assert_eq!(Demo::select("Ch_4_3"), None);
}

#[test]
fn select_tells_look_alike_characters_apart() {
    assert_eq!(Demo::select("ch_２"), None);
    assert_eq!(Demo::select("сh_2"), None);
    assert_eq!(Demo::select("ch_5_1\u{0301}"), None);
}

#[test]
fn select_tells_tokens_of_one_length_apart() {
    let found: Vec<Option<Demo>> =
        ["ch_3_3", "ch_4_3", "ch_5_1", "ch_3_1", "ch_5_3", "ch_4_1"].iter().map(|t| Demo::select(t)).collect();
    assert_eq!(
        found,
        vec![Some(Demo::MovingTriangle), Some(Demo::Perspective), Some(Demo::Overlap), None, None, None]
    );
}
