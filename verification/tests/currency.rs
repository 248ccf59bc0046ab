use jpreprocess::currency::process_currency;
use jpreprocess::njd::NJD;

#[test]
fn simple() {
    let mut njd = NJD::from_strings(vec![
        "￥,記号,*,*,*,*,*,￥,、,、,0/0,*,-1".to_string(),
        "千,名詞,数,*,*,*,*,千,セン,セン,1/2,*,0".to_string(),
    ]);
    process_currency(&mut njd);
    assert_eq!(
        njd,
        NJD::from_strings(vec![
            "千,名詞,数,*,*,*,*,千,セン,セン,1/2,*,0".to_string(),
            "円,名詞,接尾,助数詞,*,*,*,円,エン,エン,1/2,C3,1".to_string(),
        ])
    );
}

#[test]
fn multiple() {
    let mut njd = NJD::from_strings(vec![
        "￥,記号,*,*,*,*,*,￥,、,、,0/0,*,-1".to_string(),
        "三,名詞,数,*,*,*,*,三,サン,サン,3/2,C3,0".to_string(),
        "千,名詞,数,*,*,*,*,千,セン,ゼン,1/2,*,1".to_string(),
        "五,名詞,数,*,*,*,*,五,ゴ,ゴ,3/1,C3,0".to_string(),
        "百,名詞,数,*,*,*,*,百,ヒャク,ヒャク,2/2,*,1".to_string(),
    ]);
    process_currency(&mut njd);
    assert_eq!(
        njd,
        NJD::from_strings(vec![
            "三,名詞,数,*,*,*,*,三,サン,サン,3/2,C3,0".to_string(),
            "千,名詞,数,*,*,*,*,千,セン,ゼン,1/2,*,1".to_string(),
            "五,名詞,数,*,*,*,*,五,ゴ,ゴ,3/1,C3,0".to_string(),
            "百,名詞,数,*,*,*,*,百,ヒャク,ヒャク,2/2,*,1".to_string(),
            "円,名詞,接尾,助数詞,*,*,*,円,エン,エン,1/2,C3,1".to_string(),
        ])
    );
}

#[test]
fn complex() {
    let mut njd = NJD::from_strings(vec![
        "＄,記号,一般,*,*,*,*,＄,、,、,0/0,*,-1".to_string(),
        "五,名詞,数,*,*,*,*,五,ゴ,ゴ,1/1,C3,0".to_string(),
        "十,名詞,数,*,*,*,*,十,ジュウ,ジュー,1/2,*,1".to_string(),
        "€,記号,*,*,*,*,*,€,、,、,0/0,*,0".to_string(),
        "二,名詞,数,*,*,*,*,二,ニ,ニ,1/1,C3,0".to_string(),
        "十,名詞,数,*,*,*,*,十,ジュウ,ジュー,1/2,*,1".to_string(),
        "五,名詞,数,*,*,*,*,五,ゴ,ゴ,1/1,C3,0".to_string(),
    ]);
    process_currency(&mut njd);
    assert_eq!(
        njd,
        NJD::from_strings(vec![
            "五,名詞,数,*,*,*,*,五,ゴ,ゴ,1/1,C3,0".to_string(),
            "十,名詞,数,*,*,*,*,十,ジュウ,ジュー,1/2,*,1".to_string(),
            "ドル,名詞,接尾,助数詞,*,*,*,＄,ドル,ドル,1/2,C3,1".to_string(),
            "二,名詞,数,*,*,*,*,二,ニ,ニ,1/1,C3,0".to_string(),
            "十,名詞,数,*,*,*,*,十,ジュウ,ジュー,1/2,*,1".to_string(),
            "五,名詞,数,*,*,*,*,五,ゴ,ゴ,1/1,C3,0".to_string(),
            "ユーロ,名詞,接尾,助数詞,*,*,*,€,ユーロ,ユーロ,1/3,C3,1".to_string(),
        ])
    );
}

#[test]
fn dot() {
    let mut njd = NJD::from_strings(vec![
        "＄,記号,一般,*,*,*,*,＄,、,、,0/0,*,-1".to_string(),
        "一,名詞,数,*,*,*,*,一,イチ,イッ,1/2,C3,0".to_string(),
        "．,名詞,接尾,助数詞,*,*,*,．,テン,テン,0/2,*,1".to_string(),
        "九,名詞,数,*,*,*,*,九,キュウ,キュー,3/2,*,0".to_string(),
        "五,名詞,数,*,*,*,*,五,ゴ,ゴー,1/2,*,1".to_string(),
    ]);
    process_currency(&mut njd);
    assert_eq!(
        njd,
        NJD::from_strings(vec![
            "一,名詞,数,*,*,*,*,一,イチ,イッ,1/2,C3,0".to_string(),
            "．,名詞,接尾,助数詞,*,*,*,．,テン,テン,0/2,*,1".to_string(),
            "九,名詞,数,*,*,*,*,九,キュウ,キュー,3/2,*,0".to_string(),
            "五,名詞,数,*,*,*,*,五,ゴ,ゴー,1/2,*,1".to_string(),
            "ドル,名詞,接尾,助数詞,*,*,*,＄,ドル,ドル,1/2,C3,1".to_string(),
        ])
    );
}

#[test]
fn backslash_reads_as_yen() {
    let mut njd = NJD::from_strings(vec![
        "\\,記号,*,*,*,*,*,\\,、,、,0/0,*,-1".to_string(),
        "千,名詞,数,*,*,*,*,千,セン,セン,1/2,*,0".to_string(),
    ]);
    process_currency(&mut njd);
    assert_eq!(
        njd,
        NJD::from_strings(vec![
            "千,名詞,数,*,*,*,*,千,セン,セン,1/2,*,0".to_string(),
            "円,名詞,接尾,助数詞,*,*,*,円,エン,エン,1/2,C3,1".to_string(),
        ])
    );
}
