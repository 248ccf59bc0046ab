use jpreprocess::normalize_text::normalize_text_for_naist_jdic;

#[test]
fn ascii() {
    assert_eq!(
        normalize_text_for_naist_jdic(" !\"#$%&'()*+,-./"),
        "　！”＃＄％＆’（）＊＋，−．／"
    );
    assert_eq!(
        normalize_text_for_naist_jdic("0123456789"),
        "０１２３４５６７８９"
    );
    assert_eq!(normalize_text_for_naist_jdic(":;<=>?@"), "：；＜＝＞？＠");
    assert_eq!(
        normalize_text_for_naist_jdic("ABCDEFGHIJKLMNOPQRSTUVWXYZ"),
        "ＡＢＣＤＥＦＧＨＩＪＫＬＭＮＯＰＱＲＳＴＵＶＷＸＹＺ"
    );
    assert_eq!(normalize_text_for_naist_jdic("[\\]^_`"), "［￥］＾＿‘");
    assert_eq!(
        normalize_text_for_naist_jdic("abcdefghijklmnopqrstuvwxyz"),
        "ａｂｃｄｅｆｇｈｉｊｋｌｍｎｏｐｑｒｓｔｕｖｗｘｙｚ"
    );
    assert_eq!(normalize_text_for_naist_jdic("{|}~"), "｛｜｝〜");
}

#[test]
fn kana() {
    assert_eq!(
        normalize_text_for_naist_jdic("ｳﾞｶﾞｷﾞｸﾞｹﾞｺﾞｻﾞｼﾞｽﾞｾﾞｿﾞﾀﾞﾁﾞﾂﾞﾃﾞﾄﾞﾊﾞﾋﾞﾌﾞﾍﾞﾎﾞﾊﾟﾋﾟﾌﾟﾍﾟﾎﾟ"),
        "ヴガギグゲゴザジズゼゾダヂヅデドバビブベボパピプペポ"
    );
    assert_eq!(normalize_text_for_naist_jdic("｡｢｣､･"), "。「」、・");
    assert_eq!(
        normalize_text_for_naist_jdic("ｦｧｨｩｪｫｬｭｮｯｰｱｲｳｴｵｶｷｸｹｺｻｼｽｾｿﾀﾁﾂﾃﾄﾅﾆﾇﾈﾉﾊﾋﾌﾍﾎﾏﾐﾑﾒﾓﾔﾕﾖﾗﾘﾙﾚﾛﾜﾝ"),
        "ヲァィゥェォャュョッーアイウエオカキクケコサシスセソタチツテトナニヌネノハヒフヘホマミムメモヤユヨラリルレロワン"
    );
}

#[test]
fn diacritical() {
    assert_eq!(normalize_text_for_naist_jdic("ﾞﾟ"), "");
    assert_eq!(normalize_text_for_naist_jdic("あ゛"), "あ");
    assert_eq!(normalize_text_for_naist_jdic("あ゜"), "あ");
    assert_eq!(normalize_text_for_naist_jdic("は゛"), "ば");
    assert_eq!(normalize_text_for_naist_jdic("は゜"), "ぱ");
}

#[test]
fn normalizing_keeps_one_character_per_non_mark() {
    let marks = ['\u{3099}', '\u{309A}', '\u{309B}', '\u{309C}', '\u{FF9E}', '\u{FF9F}'];
    for s in ["ｶﾞｷﾞ abc", "か\u{3099}は\u{309A}ﾞ", "Hello, ﾜｰﾙﾄﾞ!", "ﾟ"] {
        let r = normalize_text_for_naist_jdic(s);
        assert_eq!(normalize_text_for_naist_jdic(&r), r);
        assert_eq!(r.chars().count(), s.chars().filter(|c| !marks.contains(c)).count());
        assert!(r.chars().all(|c| !marks.contains(&c) && !('\u{20}'..='\u{7E}').contains(&c)));
    }
}
