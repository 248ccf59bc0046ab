use jpreprocess::njd::NJD;
use jpreprocess::set_pronunciation::njd_set_pronunciation;

#[test]
fn barry_payne() {
    let mut njd = NJD::from_strings(vec![
        "バリー・ペーン,名詞,*,*,*,*,*,バリー・ペーン,*,,0/0,*,-1".to_string(),
        "は,名詞,*,*,*,*,*,は,*,,0/0,*,-1".to_string(),
    ]);

    njd_set_pronunciation(&mut njd);

    assert_eq!(njd.nodes[0].get_pron().mora_size(), 3);
    assert_eq!(njd.nodes[1].get_pron().mora_size(), 0);
    assert_eq!(njd.nodes[2].get_pron().mora_size(), 3);
    assert_eq!(njd.nodes[3].get_pron().mora_size(), 1);
}
