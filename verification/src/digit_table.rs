//! Lookup tables for reading numbers: digit readings before counter words,
//! voicing of counter words after digits, native readings before a few
//! counters, and the normal forms of digit words.

use vstd::prelude::*;

use crate::mora::MoraEnum;
use crate::text::str_eq;

verus! {

/// How the first mora of a counter word changes after a digit.
#[derive(Clone, Copy, PartialEq, Eq, Debug, Structural)]
pub enum DigitType {
    Voiced,
    SemiVoiced,
}

/// Counter words of table 1B of the digit readings.
pub open spec fn in_class1b(s: Seq<char>) -> bool {
    s == "年"@ || s == "円"@ || s == "年間"@ || s == "年生"@ || s == "年代"@ || s == "年度"@ || s == "年版"@ || s == "年余"@ || s == "年来"@ || s == "えん"@
}

fn in_class1b_exec(s: &str) -> (r: bool)
    ensures
        r == in_class1b(s@),
{
    str_eq(s, "年") || str_eq(s, "円") || str_eq(s, "年間") || str_eq(s, "年生") || str_eq(s, "年代") || str_eq(s, "年度") || str_eq(s, "年版") || str_eq(s, "年余") || str_eq(s, "年来") || str_eq(s, "えん")
}

/// Counter words of table 1C1 of the digit readings.
pub open spec fn in_class1c1(s: Seq<char>) -> bool {
    s == "人"@ || s == "人月"@ || s == "人前"@ || s == "人組"@
}

fn in_class1c1_exec(s: &str) -> (r: bool)
    ensures
        r == in_class1c1(s@),
{
    str_eq(s, "人") || str_eq(s, "人月") || str_eq(s, "人前") || str_eq(s, "人組")
}

/// Counter words of table 1C2 of the digit readings.
pub open spec fn in_class1c2(s: Seq<char>) -> bool {
    s == "時"@ || s == "時間"@ || s == "時限"@ || s == "時半"@
}

fn in_class1c2_exec(s: &str) -> (r: bool)
    ensures
        r == in_class1c2(s@),
{
    str_eq(s, "時") || str_eq(s, "時間") || str_eq(s, "時限") || str_eq(s, "時半")
}

/// Counter words of table 1D of the digit readings.
pub open spec fn in_class1d(s: Seq<char>) -> bool {
    s == "日"@ || s == "日間"@
}

fn in_class1d_exec(s: &str) -> (r: bool)
    ensures
        r == in_class1d(s@),
{
    str_eq(s, "日") || str_eq(s, "日間")
}

/// Counter words of table 1E of the digit readings.
pub open spec fn in_class1e(s: Seq<char>) -> bool {
    s == "月"@
}

fn in_class1e_exec(s: &str) -> (r: bool)
    ensures
        r == in_class1e(s@),
{
    str_eq(s, "月")
}

/// Counter words of table 1F of the digit readings.
pub open spec fn in_class1f(s: Seq<char>) -> bool {
    false
}

fn in_class1f_exec(s: &str) -> (r: bool)
    ensures
        r == in_class1f(s@),
{
    false
}

/// Counter words of table 1G of the digit readings.
pub open spec fn in_class1g(s: Seq<char>) -> bool {
    s == "個"@ || s == "階"@ || s == "分"@ || s == "発"@ || s == "本"@ || s == "鉢"@ || s == "口"@ || s == "切れ"@ || s == "箱"@ || s == "か月"@ || s == "か国"@ || s == "か所"@ || s == "か条"@ || s == "か村"@ || s == "か年"@ || s == "カ月"@ || s == "カ国"@ || s == "カ寺"@ || s == "カ所"@ || s == "カ条"@ || s == "カ村"@ || s == "カ店"@ || s == "カ年"@ || s == "ケ月"@ || s == "ケ国"@ || s == "ケ所"@ || s == "ケ条"@ || s == "ケ村"@ || s == "ケ年"@ || s == "ヵ月"@ || s == "ヵ国"@ || s == "ヵ所"@ || s == "ヵ条"@ || s == "ヵ村"@ || s == "ヵ年"@ || s == "ヶ月"@ || s == "ヶ国"@ || s == "ヶ所"@ || s == "ヶ条"@ || s == "ヶ村"@ || s == "ヶ年"@ || s == "個月"@ || s == "個口"@ || s == "個国"@ || s == "個条"@ || s == "個年"@ || s == "箇月"@ || s == "箇国"@ || s == "箇所"@ || s == "箇条"@ || s == "箇年"@ || s == "かけ"@ || s == "くだり"@ || s == "けた"@ || s == "価"@ || s == "課"@ || s == "画"@ || s == "回"@ || s == "回忌"@ || s == "回生"@ || s == "回戦"@ || s == "回線"@ || s == "回分"@ || s == "海里"@ || s == "カイリ"@ || s == "浬"@ || s == "角"@ || s == "株"@ || s == "冠"@ || s == "巻"@ || s == "缶"@ || s == "貫"@ || s == "貫目"@ || s == "間"@ || s == "基"@ || s == "期"@ || s == "期生"@ || s == "機"@ || s == "気圧"@ || s == "季"@ || s == "騎"@ || s == "客"@ || s == "脚"@ || s == "球"@ || s == "級"@ || s == "橋"@ || s == "局"@ || s == "曲"@ || s == "極"@ || s == "重ね"@ || s == "斤"@ || s == "金"@ || s == "句"@ || s == "区"@ || s == "躯"@ || s == "計"@ || s == "桁"@ || s == "ケタ"@ || s == "校"@ || s == "港"@ || s == "項"@ || s == "組"@ || s == "件"@ || s == "軒"@ || s == "言"@ || s == "戸"@ || s == "湖"@ || s == "光年"@ || s == "石"@ || s == "ぴき"@ || s == "ぺん"@ || s == "波"@ || s == "派"@ || s == "敗"@ || s == "杯"@ || s == "拍"@ || s == "泊"@ || s == "版"@ || s == "犯"@ || s == "班"@ || s == "匹"@ || s == "疋"@ || s == "筆"@ || s == "俵"@ || s == "票"@ || s == "品"@ || s == "分間"@ || s == "分目"@ || s == "片"@ || s == "篇"@ || s == "編"@ || s == "辺"@ || s == "遍"@ || s == "歩"@ || s == "報"@ || s == "方"@ || s == "法"@ || s == "本立て"@ || s == "頭身"@
}

fn in_class1g_exec(s: &str) -> (r: bool)
    ensures
        r == in_class1g(s@),
{
    str_eq(s, "個") || str_eq(s, "階") || str_eq(s, "分") || str_eq(s, "発") || str_eq(s, "本") || str_eq(s, "鉢") || str_eq(s, "口") || str_eq(s, "切れ") || str_eq(s, "箱") || str_eq(s, "か月") || str_eq(s, "か国") || str_eq(s, "か所") || str_eq(s, "か条") || str_eq(s, "か村") || str_eq(s, "か年") || str_eq(s, "カ月") || str_eq(s, "カ国") || str_eq(s, "カ寺") || str_eq(s, "カ所") || str_eq(s, "カ条") || str_eq(s, "カ村") || str_eq(s, "カ店") || str_eq(s, "カ年") || str_eq(s, "ケ月") || str_eq(s, "ケ国") || str_eq(s, "ケ所") || str_eq(s, "ケ条") || str_eq(s, "ケ村") || str_eq(s, "ケ年") || str_eq(s, "ヵ月") || str_eq(s, "ヵ国") || str_eq(s, "ヵ所") || str_eq(s, "ヵ条") || str_eq(s, "ヵ村") || str_eq(s, "ヵ年") || str_eq(s, "ヶ月") || str_eq(s, "ヶ国") || str_eq(s, "ヶ所") || str_eq(s, "ヶ条") || str_eq(s, "ヶ村") || str_eq(s, "ヶ年") || str_eq(s, "個月") || str_eq(s, "個口") || str_eq(s, "個国") || str_eq(s, "個条") || str_eq(s, "個年") || str_eq(s, "箇月") || str_eq(s, "箇国") || str_eq(s, "箇所") || str_eq(s, "箇条") || str_eq(s, "箇年") || str_eq(s, "かけ") || str_eq(s, "くだり") || str_eq(s, "けた") || str_eq(s, "価") || str_eq(s, "課") || str_eq(s, "画") || str_eq(s, "回") || str_eq(s, "回忌") || str_eq(s, "回生") || str_eq(s, "回戦") || str_eq(s, "回線") || str_eq(s, "回分") || str_eq(s, "海里") || str_eq(s, "カイリ") || str_eq(s, "浬") || str_eq(s, "角") || str_eq(s, "株") || str_eq(s, "冠") || str_eq(s, "巻") || str_eq(s, "缶") || str_eq(s, "貫") || str_eq(s, "貫目") || str_eq(s, "間") || str_eq(s, "基") || str_eq(s, "期") || str_eq(s, "期生") || str_eq(s, "機") || str_eq(s, "気圧") || str_eq(s, "季") || str_eq(s, "騎") || str_eq(s, "客") || str_eq(s, "脚") || str_eq(s, "球") || str_eq(s, "級") || str_eq(s, "橋") || str_eq(s, "局") || str_eq(s, "曲") || str_eq(s, "極") || str_eq(s, "重ね") || str_eq(s, "斤") || str_eq(s, "金") || str_eq(s, "句") || str_eq(s, "区") || str_eq(s, "躯") || str_eq(s, "計") || str_eq(s, "桁") || str_eq(s, "ケタ") || str_eq(s, "校") || str_eq(s, "港") || str_eq(s, "項") || str_eq(s, "組") || str_eq(s, "件") || str_eq(s, "軒") || str_eq(s, "言") || str_eq(s, "戸") || str_eq(s, "湖") || str_eq(s, "光年") || str_eq(s, "石") || str_eq(s, "ぴき") || str_eq(s, "ぺん") || str_eq(s, "波") || str_eq(s, "派") || str_eq(s, "敗") || str_eq(s, "杯") || str_eq(s, "拍") || str_eq(s, "泊") || str_eq(s, "版") || str_eq(s, "犯") || str_eq(s, "班") || str_eq(s, "匹") || str_eq(s, "疋") || str_eq(s, "筆") || str_eq(s, "俵") || str_eq(s, "票") || str_eq(s, "品") || str_eq(s, "分間") || str_eq(s, "分目") || str_eq(s, "片") || str_eq(s, "篇") || str_eq(s, "編") || str_eq(s, "辺") || str_eq(s, "遍") || str_eq(s, "歩") || str_eq(s, "報") || str_eq(s, "方") || str_eq(s, "法") || str_eq(s, "本立て") || str_eq(s, "頭身")
}

/// Counter words of table 1H of the digit readings.
pub open spec fn in_class1h(s: Seq<char>) -> bool {
    s == "．"@ || s == "・"@ || s == "才"@ || s == "頭"@ || s == "着"@ || s == "足"@ || s == "尺"@ || s == "坪"@ || s == "通り"@ || s == "センチ"@ || s == "シーシー"@ || s == "ＣＣ"@ || s == "ｃｃ"@ || s == "ｃｍ"@ || s == "サイクル"@ || s == "サンチーム"@ || s == "シーズン"@ || s == "シート"@ || s == "シリング"@ || s == "シンガポールドル"@ || s == "スイスフラン"@ || s == "スウェーデンクローネ"@ || s == "スクレ"@ || s == "セット"@ || s == "セント"@ || s == "ソル"@ || s == "ゾーン"@ || s == "糎"@ || s == "竿"@ || s == "差"@ || s == "差し"@ || s == "歳"@ || s == "歳児"@ || s == "作"@ || s == "冊"@ || s == "刷"@ || s == "皿"@ || s == "棹"@ || s == "艘"@ || s == "子"@ || s == "視"@ || s == "式"@ || s == "失"@ || s == "室"@ || s == "射"@ || s == "社"@ || s == "勺"@ || s == "種"@ || s == "首"@ || s == "周"@ || s == "周忌"@ || s == "周年"@ || s == "州"@ || s == "週"@ || s == "週間"@ || s == "集"@ || s == "宿"@ || s == "所"@ || s == "勝"@ || s == "升"@ || s == "床"@ || s == "章"@ || s == "色"@ || s == "食"@ || s == "親等"@ || s == "進"@ || s == "進数"@ || s == "品"@ || s == "すじ"@ || s == "そう"@ || s == "そろい"@ || s == "筋"@ || s == "数"@ || s == "寸"@ || s == "世"@ || s == "隻"@ || s == "席"@ || s == "石"@ || s == "節"@ || s == "戦"@ || s == "線"@ || s == "選"@ || s == "銭"@ || s == "層"@ || s == "相"@ || s == "揃"@ || s == "たび"@ || s == "つかみ"@ || s == "つがい"@ || s == "つぶ"@ || s == "つまみ"@ || s == "つ折"@ || s == "つ折り"@ || s == "とおり"@ || s == "とき"@ || s == "ところ"@ || s == "とせ"@ || s == "玉"@ || s == "月"@ || s == "手"@ || s == "束"@ || s == "続き"@ || s == "体"@ || s == "対"@ || s == "卓"@ || s == "樽"@ || s == "反"@ || s == "丁"@ || s == "丁目"@ || s == "鳥"@ || s == "通"@ || s == "掴み"@ || s == "艇"@ || s == "滴"@ || s == "店"@ || s == "転"@ || s == "点"@ || s == "斗"@ || s == "棟"@ || s == "盗"@ || s == "灯"@ || s == "等"@ || s == "等席"@ || s == "等地"@ || s == "等分"@ || s == "答"@ || s == "得"@ || s == "噸"@ || s == "粒"@ || s == "種類"@ || s == "歳馬"@ || s == "世紀"@ || s == "車種"@
}

fn in_class1h_exec(s: &str) -> (r: bool)
    ensures
        r == in_class1h(s@),
{
    str_eq(s, "．") || str_eq(s, "・") || str_eq(s, "才") || str_eq(s, "頭") || str_eq(s, "着") || str_eq(s, "足") || str_eq(s, "尺") || str_eq(s, "坪") || str_eq(s, "通り") || str_eq(s, "センチ") || str_eq(s, "シーシー") || str_eq(s, "ＣＣ") || str_eq(s, "ｃｃ") || str_eq(s, "ｃｍ") || str_eq(s, "サイクル") || str_eq(s, "サンチーム") || str_eq(s, "シーズン") || str_eq(s, "シート") || str_eq(s, "シリング") || str_eq(s, "シンガポールドル") || str_eq(s, "スイスフラン") || str_eq(s, "スウェーデンクローネ") || str_eq(s, "スクレ") || str_eq(s, "セット") || str_eq(s, "セント") || str_eq(s, "ソル") || str_eq(s, "ゾーン") || str_eq(s, "糎") || str_eq(s, "竿") || str_eq(s, "差") || str_eq(s, "差し") || str_eq(s, "歳") || str_eq(s, "歳児") || str_eq(s, "作") || str_eq(s, "冊") || str_eq(s, "刷") || str_eq(s, "皿") || str_eq(s, "棹") || str_eq(s, "艘") || str_eq(s, "子") || str_eq(s, "視") || str_eq(s, "式") || str_eq(s, "失") || str_eq(s, "室") || str_eq(s, "射") || str_eq(s, "社") || str_eq(s, "勺") || str_eq(s, "種") || str_eq(s, "首") || str_eq(s, "周") || str_eq(s, "周忌") || str_eq(s, "周年") || str_eq(s, "州") || str_eq(s, "週") || str_eq(s, "週間") || str_eq(s, "集") || str_eq(s, "宿") || str_eq(s, "所") || str_eq(s, "勝") || str_eq(s, "升") || str_eq(s, "床") || str_eq(s, "章") || str_eq(s, "色") || str_eq(s, "食") || str_eq(s, "親等") || str_eq(s, "進") || str_eq(s, "進数") || str_eq(s, "品") || str_eq(s, "すじ") || str_eq(s, "そう") || str_eq(s, "そろい") || str_eq(s, "筋") || str_eq(s, "数") || str_eq(s, "寸") || str_eq(s, "世") || str_eq(s, "隻") || str_eq(s, "席") || str_eq(s, "石") || str_eq(s, "節") || str_eq(s, "戦") || str_eq(s, "線") || str_eq(s, "選") || str_eq(s, "銭") || str_eq(s, "層") || str_eq(s, "相") || str_eq(s, "揃") || str_eq(s, "たび") || str_eq(s, "つかみ") || str_eq(s, "つがい") || str_eq(s, "つぶ") || str_eq(s, "つまみ") || str_eq(s, "つ折") || str_eq(s, "つ折り") || str_eq(s, "とおり") || str_eq(s, "とき") || str_eq(s, "ところ") || str_eq(s, "とせ") || str_eq(s, "玉") || str_eq(s, "月") || str_eq(s, "手") || str_eq(s, "束") || str_eq(s, "続き") || str_eq(s, "体") || str_eq(s, "対") || str_eq(s, "卓") || str_eq(s, "樽") || str_eq(s, "反") || str_eq(s, "丁") || str_eq(s, "丁目") || str_eq(s, "鳥") || str_eq(s, "通") || str_eq(s, "掴み") || str_eq(s, "艇") || str_eq(s, "滴") || str_eq(s, "店") || str_eq(s, "転") || str_eq(s, "点") || str_eq(s, "斗") || str_eq(s, "棟") || str_eq(s, "盗") || str_eq(s, "灯") || str_eq(s, "等") || str_eq(s, "等席") || str_eq(s, "等地") || str_eq(s, "等分") || str_eq(s, "答") || str_eq(s, "得") || str_eq(s, "噸") || str_eq(s, "粒") || str_eq(s, "種類") || str_eq(s, "歳馬") || str_eq(s, "世紀") || str_eq(s, "車種")
}

/// Counter words of table 1I of the digit readings.
pub open spec fn in_class1i(s: Seq<char>) -> bool {
    s == "キロ"@ || s == "カロリー"@ || s == "ｃａｌ"@ || s == "ｋｂ"@ || s == "ｋｇ"@ || s == "ｋｌ"@ || s == "ｋｍ"@ || s == "ｋｔ"@ || s == "ｋｗ"@ || s == "ｋグラム"@ || s == "ｋバイト"@ || s == "ｋヘルツ"@ || s == "ｋメートル"@ || s == "ｋリットル"@ || s == "ｋワット"@ || s == "カナダドル"@ || s == "カラット"@ || s == "ガロン"@ || s == "キュリー"@ || s == "キロカロリー"@ || s == "キログラム"@ || s == "キロトン"@ || s == "キロバイト"@ || s == "キロヘルツ"@ || s == "キロメートル"@ || s == "キロリットル"@ || s == "キロワット"@ || s == "キロワット時"@ || s == "クラス"@ || s == "クローナ"@ || s == "クローネ"@ || s == "グァラニ"@ || s == "ケース"@ || s == "コース"@ || s == "粁"@
}

fn in_class1i_exec(s: &str) -> (r: bool)
    ensures
        r == in_class1i(s@),
{
    str_eq(s, "キロ") || str_eq(s, "カロリー") || str_eq(s, "ｃａｌ") || str_eq(s, "ｋｂ") || str_eq(s, "ｋｇ") || str_eq(s, "ｋｌ") || str_eq(s, "ｋｍ") || str_eq(s, "ｋｔ") || str_eq(s, "ｋｗ") || str_eq(s, "ｋグラム") || str_eq(s, "ｋバイト") || str_eq(s, "ｋヘルツ") || str_eq(s, "ｋメートル") || str_eq(s, "ｋリットル") || str_eq(s, "ｋワット") || str_eq(s, "カナダドル") || str_eq(s, "カラット") || str_eq(s, "ガロン") || str_eq(s, "キュリー") || str_eq(s, "キロカロリー") || str_eq(s, "キログラム") || str_eq(s, "キロトン") || str_eq(s, "キロバイト") || str_eq(s, "キロヘルツ") || str_eq(s, "キロメートル") || str_eq(s, "キロリットル") || str_eq(s, "キロワット") || str_eq(s, "キロワット時") || str_eq(s, "クラス") || str_eq(s, "クローナ") || str_eq(s, "クローネ") || str_eq(s, "グァラニ") || str_eq(s, "ケース") || str_eq(s, "コース") || str_eq(s, "粁")
}

/// Counter words of table 1J of the digit readings.
pub open spec fn in_class1j(s: Seq<char>) -> bool {
    s == "トン"@ || s == "ｔ"@ || s == "タル"@ || s == "テラ"@ || s == "トライ"@
}

fn in_class1j_exec(s: &str) -> (r: bool)
    ensures
        r == in_class1j(s@),
{
    str_eq(s, "トン") || str_eq(s, "ｔ") || str_eq(s, "タル") || str_eq(s, "テラ") || str_eq(s, "トライ")
}

/// Counter words of table 1K of the digit readings.
pub open spec fn in_class1k(s: Seq<char>) -> bool {
    s == "房"@ || s == "柱"@ || s == "％"@ || s == "ポンド"@ || s == "ｐａ"@ || s == "ｐｐｍ"@ || s == "パーセント"@ || s == "パーミル"@ || s == "パスカル"@ || s == "パック"@ || s == "パット"@ || s == "ピーピーエム"@ || s == "ピコ"@ || s == "ページ"@ || s == "頁"@ || s == "ペア"@ || s == "ペセタ"@ || s == "ペソ"@ || s == "ペニー"@ || s == "ペニヒ"@ || s == "ペンス"@ || s == "ポイント"@ || s == "振り"@ || s == "針"@ || s == "袋"@ || s == "張り"@ || s == "平米"@ || s == "平方キロ"@ || s == "平方キロメートル"@ || s == "平方センチメートル"@ || s == "平方メートル"@ || s == "品目"@
}

fn in_class1k_exec(s: &str) -> (r: bool)
    ensures
        r == in_class1k(s@),
{
    str_eq(s, "房") || str_eq(s, "柱") || str_eq(s, "％") || str_eq(s, "ポンド") || str_eq(s, "ｐａ") || str_eq(s, "ｐｐｍ") || str_eq(s, "パーセント") || str_eq(s, "パーミル") || str_eq(s, "パスカル") || str_eq(s, "パック") || str_eq(s, "パット") || str_eq(s, "ピーピーエム") || str_eq(s, "ピコ") || str_eq(s, "ページ") || str_eq(s, "頁") || str_eq(s, "ペア") || str_eq(s, "ペセタ") || str_eq(s, "ペソ") || str_eq(s, "ペニー") || str_eq(s, "ペニヒ") || str_eq(s, "ペンス") || str_eq(s, "ポイント") || str_eq(s, "振り") || str_eq(s, "針") || str_eq(s, "袋") || str_eq(s, "張り") || str_eq(s, "平米") || str_eq(s, "平方キロ") || str_eq(s, "平方キロメートル") || str_eq(s, "平方センチメートル") || str_eq(s, "平方メートル") || str_eq(s, "品目")
}

/// The reading that a digit `d` takes before the counter word `n`, as
/// voiced morae and an accent, where the digit readings change it: the
/// first table whose counters include `n` decides.
pub open spec fn class1_pron(n: Seq<char>, d: Seq<char>) -> Option<(Seq<MoraEnum>, nat)> {
    if in_class1b(n) {
            if d == "四"@ {
                Some((seq![MoraEnum::Yo], 0nat))
            } else {
                None
            }
    } else if in_class1c1(n) {
            if d == "四"@ {
                Some((seq![MoraEnum::Yo], 0nat))
            } else if d == "七"@ {
                Some((seq![MoraEnum::Shi, MoraEnum::Chi], 1nat))
            } else {
                None
            }
    } else if in_class1c2(n) {
            if d == "四"@ {
                Some((seq![MoraEnum::Yo], 0nat))
            } else if d == "七"@ {
                Some((seq![MoraEnum::Shi, MoraEnum::Chi], 1nat))
            } else if d == "九"@ {
                Some((seq![MoraEnum::Ku], 0nat))
            } else {
                None
            }
    } else if in_class1d(n) {
            if d == "七"@ {
                Some((seq![MoraEnum::Shi, MoraEnum::Chi], 1nat))
            } else if d == "九"@ {
                Some((seq![MoraEnum::Ku], 0nat))
            } else {
                None
            }
    } else if in_class1e(n) {
            if d == "四"@ {
                Some((seq![MoraEnum::Shi], 0nat))
            } else if d == "七"@ {
                Some((seq![MoraEnum::Shi, MoraEnum::Chi], 1nat))
            } else if d == "九"@ {
                Some((seq![MoraEnum::Ku], 0nat))
            } else {
                None
            }
    } else if in_class1f(n) {
            if d == "六"@ {
                Some((seq![MoraEnum::Ro, MoraEnum::Xtsu], 1nat))
            } else if d == "八"@ {
                Some((seq![MoraEnum::Ha, MoraEnum::Xtsu], 1nat))
            } else if d == "十"@ {
                Some((seq![MoraEnum::Ju, MoraEnum::Xtsu], 1nat))
            } else if d == "百"@ {
                Some((seq![MoraEnum::Hya, MoraEnum::Xtsu], 1nat))
            } else {
                None
            }
    } else if in_class1g(n) {
            if d == "一"@ {
                Some((seq![MoraEnum::I, MoraEnum::Xtsu], 1nat))
            } else if d == "六"@ {
                Some((seq![MoraEnum::Ro, MoraEnum::Xtsu], 1nat))
            } else if d == "八"@ {
                Some((seq![MoraEnum::Ha, MoraEnum::Xtsu], 1nat))
            } else if d == "十"@ {
                Some((seq![MoraEnum::Ju, MoraEnum::Xtsu], 1nat))
            } else if d == "百"@ {
                Some((seq![MoraEnum::Hya, MoraEnum::Xtsu], 1nat))
            } else {
                None
            }
    } else if in_class1h(n) {
            if d == "一"@ {
                Some((seq![MoraEnum::I, MoraEnum::Xtsu], 1nat))
            } else if d == "八"@ {
                Some((seq![MoraEnum::Ha, MoraEnum::Xtsu], 1nat))
            } else if d == "十"@ {
                Some((seq![MoraEnum::Ju, MoraEnum::Xtsu], 1nat))
            } else {
                None
            }
    } else if in_class1i(n) {
            if d == "六"@ {
                Some((seq![MoraEnum::Ro, MoraEnum::Xtsu], 1nat))
            } else if d == "十"@ {
                Some((seq![MoraEnum::Ju, MoraEnum::Xtsu], 1nat))
            } else if d == "百"@ {
                Some((seq![MoraEnum::Hya, MoraEnum::Xtsu], 1nat))
            } else {
                None
            }
    } else if in_class1j(n) {
            if d == "一"@ {
                Some((seq![MoraEnum::I, MoraEnum::Xtsu], 1nat))
            } else if d == "十"@ {
                Some((seq![MoraEnum::Ju, MoraEnum::Xtsu], 1nat))
            } else {
                None
            }
    } else if in_class1k(n) {
            if d == "十"@ {
                Some((seq![MoraEnum::Ju, MoraEnum::Xtsu], 1nat))
            } else {
                None
            }
    } else {
        None
    }
}

pub(crate) fn class1_lookup(n: &str, d: &str) -> (r: Option<(&'static [MoraEnum], usize)>)
    ensures
        match r {
            Some((ms, a)) => class1_pron(n@, d@) == Some((ms@, a as nat)),
            None => class1_pron(n@, d@) is None,
        },
{
    if in_class1b_exec(n) {
            if str_eq(d, "四") {
                Some((&[MoraEnum::Yo], 0))
            } else {
                None
            }
    } else if in_class1c1_exec(n) {
            if str_eq(d, "四") {
                Some((&[MoraEnum::Yo], 0))
            } else if str_eq(d, "七") {
                Some((&[MoraEnum::Shi, MoraEnum::Chi], 1))
            } else {
                None
            }
    } else if in_class1c2_exec(n) {
            if str_eq(d, "四") {
                Some((&[MoraEnum::Yo], 0))
            } else if str_eq(d, "七") {
                Some((&[MoraEnum::Shi, MoraEnum::Chi], 1))
            } else if str_eq(d, "九") {
                Some((&[MoraEnum::Ku], 0))
            } else {
                None
            }
    } else if in_class1d_exec(n) {
            if str_eq(d, "七") {
                Some((&[MoraEnum::Shi, MoraEnum::Chi], 1))
            } else if str_eq(d, "九") {
                Some((&[MoraEnum::Ku], 0))
            } else {
                None
            }
    } else if in_class1e_exec(n) {
            if str_eq(d, "四") {
                Some((&[MoraEnum::Shi], 0))
            } else if str_eq(d, "七") {
                Some((&[MoraEnum::Shi, MoraEnum::Chi], 1))
            } else if str_eq(d, "九") {
                Some((&[MoraEnum::Ku], 0))
            } else {
                None
            }
    } else if in_class1f_exec(n) {
            if str_eq(d, "六") {
                Some((&[MoraEnum::Ro, MoraEnum::Xtsu], 1))
            } else if str_eq(d, "八") {
                Some((&[MoraEnum::Ha, MoraEnum::Xtsu], 1))
            } else if str_eq(d, "十") {
                Some((&[MoraEnum::Ju, MoraEnum::Xtsu], 1))
            } else if str_eq(d, "百") {
                Some((&[MoraEnum::Hya, MoraEnum::Xtsu], 1))
            } else {
                None
            }
    } else if in_class1g_exec(n) {
            if str_eq(d, "一") {
                Some((&[MoraEnum::I, MoraEnum::Xtsu], 1))
            } else if str_eq(d, "六") {
                Some((&[MoraEnum::Ro, MoraEnum::Xtsu], 1))
            } else if str_eq(d, "八") {
                Some((&[MoraEnum::Ha, MoraEnum::Xtsu], 1))
            } else if str_eq(d, "十") {
                Some((&[MoraEnum::Ju, MoraEnum::Xtsu], 1))
            } else if str_eq(d, "百") {
                Some((&[MoraEnum::Hya, MoraEnum::Xtsu], 1))
            } else {
                None
            }
    } else if in_class1h_exec(n) {
            if str_eq(d, "一") {
                Some((&[MoraEnum::I, MoraEnum::Xtsu], 1))
            } else if str_eq(d, "八") {
                Some((&[MoraEnum::Ha, MoraEnum::Xtsu], 1))
            } else if str_eq(d, "十") {
                Some((&[MoraEnum::Ju, MoraEnum::Xtsu], 1))
            } else {
                None
            }
    } else if in_class1i_exec(n) {
            if str_eq(d, "六") {
                Some((&[MoraEnum::Ro, MoraEnum::Xtsu], 1))
            } else if str_eq(d, "十") {
                Some((&[MoraEnum::Ju, MoraEnum::Xtsu], 1))
            } else if str_eq(d, "百") {
                Some((&[MoraEnum::Hya, MoraEnum::Xtsu], 1))
            } else {
                None
            }
    } else if in_class1j_exec(n) {
            if str_eq(d, "一") {
                Some((&[MoraEnum::I, MoraEnum::Xtsu], 1))
            } else if str_eq(d, "十") {
                Some((&[MoraEnum::Ju, MoraEnum::Xtsu], 1))
            } else {
                None
            }
    } else if in_class1k_exec(n) {
            if str_eq(d, "十") {
                Some((&[MoraEnum::Ju, MoraEnum::Xtsu], 1))
            } else {
                None
            }
    } else {
        None
    }
}

/// Counter words of table 2B of the counter readings.
pub open spec fn in_class2b(s: Seq<char>) -> bool {
    s == "分"@ || s == "版"@ || s == "敗"@ || s == "発"@ || s == "拍"@ || s == "鉢"@ || s == "波"@ || s == "派"@ || s == "泊"@ || s == "犯"@ || s == "班"@ || s == "品"@ || s == "分間"@ || s == "分目"@ || s == "片"@ || s == "篇"@ || s == "編"@ || s == "辺"@ || s == "遍"@ || s == "歩"@ || s == "報"@ || s == "方"@
}

fn in_class2b_exec(s: &str) -> (r: bool)
    ensures
        r == in_class2b(s@),
{
    str_eq(s, "分") || str_eq(s, "版") || str_eq(s, "敗") || str_eq(s, "発") || str_eq(s, "拍") || str_eq(s, "鉢") || str_eq(s, "波") || str_eq(s, "派") || str_eq(s, "泊") || str_eq(s, "犯") || str_eq(s, "班") || str_eq(s, "品") || str_eq(s, "分間") || str_eq(s, "分目") || str_eq(s, "片") || str_eq(s, "篇") || str_eq(s, "編") || str_eq(s, "辺") || str_eq(s, "遍") || str_eq(s, "歩") || str_eq(s, "報") || str_eq(s, "方")
}

/// Counter words of table 2C of the counter readings.
pub open spec fn in_class2c(s: Seq<char>) -> bool {
    s == "本"@ || s == "匹"@ || s == "疋"@ || s == "票"@ || s == "俵"@ || s == "箱"@ || s == "本立て"@ || s == "杯"@ || s == "針"@ || s == "柱"@
}

fn in_class2c_exec(s: &str) -> (r: bool)
    ensures
        r == in_class2c(s@),
{
    str_eq(s, "本") || str_eq(s, "匹") || str_eq(s, "疋") || str_eq(s, "票") || str_eq(s, "俵") || str_eq(s, "箱") || str_eq(s, "本立て") || str_eq(s, "杯") || str_eq(s, "針") || str_eq(s, "柱")
}

/// Counter words of table 2D of the counter readings.
pub open spec fn in_class2d(s: Seq<char>) -> bool {
    false
}

fn in_class2d_exec(s: &str) -> (r: bool)
    ensures
        r == in_class2d(s@),
{
    false
}

/// Counter words of table 2E of the counter readings.
pub open spec fn in_class2e(s: Seq<char>) -> bool {
    s == "軒"@ || s == "石"@ || s == "足"@ || s == "尺"@ || s == "かけ"@ || s == "重ね"@ || s == "件"@ || s == "勺"@
}

fn in_class2e_exec(s: &str) -> (r: bool)
    ensures
        r == in_class2e(s@),
{
    str_eq(s, "軒") || str_eq(s, "石") || str_eq(s, "足") || str_eq(s, "尺") || str_eq(s, "かけ") || str_eq(s, "重ね") || str_eq(s, "件") || str_eq(s, "勺")
}

/// Counter words of table 2F of the counter readings.
pub open spec fn in_class2f(s: Seq<char>) -> bool {
    s == "階"@
}

fn in_class2f_exec(s: &str) -> (r: bool)
    ensures
        r == in_class2f(s@),
{
    str_eq(s, "階")
}

/// How the first mora of the counter word `n` changes after the digit `d`:
/// the first table whose counters include `n` decides.
pub open spec fn class2_type(n: Seq<char>, d: Seq<char>) -> Option<DigitType> {
    if in_class2b(n) {
            if d == "一"@ {
                Some(DigitType::SemiVoiced)
            } else if d == "三"@ {
                Some(DigitType::SemiVoiced)
            } else if d == "四"@ {
                Some(DigitType::SemiVoiced)
            } else if d == "六"@ {
                Some(DigitType::SemiVoiced)
            } else if d == "八"@ {
                Some(DigitType::SemiVoiced)
            } else if d == "十"@ {
                Some(DigitType::SemiVoiced)
            } else if d == "百"@ {
                Some(DigitType::SemiVoiced)
            } else if d == "千"@ {
                Some(DigitType::SemiVoiced)
            } else if d == "万"@ {
                Some(DigitType::SemiVoiced)
            } else if d == "何"@ {
                Some(DigitType::SemiVoiced)
            } else {
                None
            }
    } else if in_class2c(n) {
            if d == "一"@ {
                Some(DigitType::SemiVoiced)
            } else if d == "三"@ {
                Some(DigitType::Voiced)
            } else if d == "六"@ {
                Some(DigitType::SemiVoiced)
            } else if d == "八"@ {
                Some(DigitType::SemiVoiced)
            } else if d == "十"@ {
                Some(DigitType::SemiVoiced)
            } else if d == "百"@ {
                Some(DigitType::SemiVoiced)
            } else if d == "千"@ {
                Some(DigitType::Voiced)
            } else if d == "万"@ {
                Some(DigitType::Voiced)
            } else if d == "何"@ {
                Some(DigitType::Voiced)
            } else {
                None
            }
    } else if in_class2d(n) {
            if d == "三"@ {
                Some(DigitType::Voiced)
            } else if d == "六"@ {
                Some(DigitType::SemiVoiced)
            } else if d == "八"@ {
                Some(DigitType::SemiVoiced)
            } else if d == "十"@ {
                Some(DigitType::SemiVoiced)
            } else if d == "百"@ {
                Some(DigitType::SemiVoiced)
            } else if d == "千"@ {
                Some(DigitType::Voiced)
            } else if d == "万"@ {
                Some(DigitType::Voiced)
            } else if d == "何"@ {
                Some(DigitType::Voiced)
            } else {
                None
            }
    } else if in_class2e(n) {
            if d == "三"@ {
                Some(DigitType::Voiced)
            } else if d == "千"@ {
                Some(DigitType::Voiced)
            } else if d == "万"@ {
                Some(DigitType::Voiced)
            } else {
                None
            }
    } else if in_class2f(n) {
            if d == "三"@ {
                Some(DigitType::Voiced)
            } else {
                None
            }
    } else {
        None
    }
}

pub(crate) fn class2_lookup(n: &str, d: &str) -> (r: Option<DigitType>)
    ensures
        r == class2_type(n@, d@),
{
    if in_class2b_exec(n) {
            if str_eq(d, "一") {
                Some(DigitType::SemiVoiced)
            } else if str_eq(d, "三") {
                Some(DigitType::SemiVoiced)
            } else if str_eq(d, "四") {
                Some(DigitType::SemiVoiced)
            } else if str_eq(d, "六") {
                Some(DigitType::SemiVoiced)
            } else if str_eq(d, "八") {
                Some(DigitType::SemiVoiced)
            } else if str_eq(d, "十") {
                Some(DigitType::SemiVoiced)
            } else if str_eq(d, "百") {
                Some(DigitType::SemiVoiced)
            } else if str_eq(d, "千") {
                Some(DigitType::SemiVoiced)
            } else if str_eq(d, "万") {
                Some(DigitType::SemiVoiced)
            } else if str_eq(d, "何") {
                Some(DigitType::SemiVoiced)
            } else {
                None
            }
    } else if in_class2c_exec(n) {
            if str_eq(d, "一") {
                Some(DigitType::SemiVoiced)
            } else if str_eq(d, "三") {
                Some(DigitType::Voiced)
            } else if str_eq(d, "六") {
                Some(DigitType::SemiVoiced)
            } else if str_eq(d, "八") {
                Some(DigitType::SemiVoiced)
            } else if str_eq(d, "十") {
                Some(DigitType::SemiVoiced)
            } else if str_eq(d, "百") {
                Some(DigitType::SemiVoiced)
            } else if str_eq(d, "千") {
                Some(DigitType::Voiced)
            } else if str_eq(d, "万") {
                Some(DigitType::Voiced)
            } else if str_eq(d, "何") {
                Some(DigitType::Voiced)
            } else {
                None
            }
    } else if in_class2d_exec(n) {
            if str_eq(d, "三") {
                Some(DigitType::Voiced)
            } else if str_eq(d, "六") {
                Some(DigitType::SemiVoiced)
            } else if str_eq(d, "八") {
                Some(DigitType::SemiVoiced)
            } else if str_eq(d, "十") {
                Some(DigitType::SemiVoiced)
            } else if str_eq(d, "百") {
                Some(DigitType::SemiVoiced)
            } else if str_eq(d, "千") {
                Some(DigitType::Voiced)
            } else if str_eq(d, "万") {
                Some(DigitType::Voiced)
            } else if str_eq(d, "何") {
                Some(DigitType::Voiced)
            } else {
                None
            }
    } else if in_class2e_exec(n) {
            if str_eq(d, "三") {
                Some(DigitType::Voiced)
            } else if str_eq(d, "千") {
                Some(DigitType::Voiced)
            } else if str_eq(d, "万") {
                Some(DigitType::Voiced)
            } else {
                None
            }
    } else if in_class2f_exec(n) {
            if str_eq(d, "三") {
                Some(DigitType::Voiced)
            } else {
                None
            }
    } else {
        None
    }
}

/// Whether the counter word `n` read `read` takes the native readings of
/// the digits before it.
pub open spec fn in_class3(n: Seq<char>, read: Seq<char>) -> bool {
    if n == "棟"@ {
        read == "ムネ"@
    } else if n == "かけ"@ {
        read == "カケ"@
    } else if n == "くだり"@ {
        read == "クダリ"@
    } else if n == "けた"@ {
        read == "ケタ"@
    } else if n == "すじ"@ {
        read == "スジ"@
    } else if n == "そろい"@ {
        read == "ソロイ"@
    } else if n == "たび"@ {
        read == "タビ"@
    } else if n == "つかみ"@ {
        read == "ツカミ"@
    } else if n == "つがい"@ {
        read == "ツガイ"@
    } else if n == "つまみ"@ {
        read == "ツマミ"@
    } else if n == "とおり"@ {
        read == "トオリ"@
    } else if n == "ところ"@ {
        read == "トコロ"@
    } else if n == "とせ"@ {
        read == "トセ"@
    } else if n == "まわり"@ {
        read == "マワリ"@
    } else if n == "シーズン"@ {
        read == "シーズン"@
    } else if n == "セット"@ {
        read == "セット"@
    } else if n == "握り"@ {
        read == "ニギリ"@
    } else if n == "回り"@ {
        read == "マワリ"@
    } else if n == "株"@ {
        read == "カブ"@
    } else if n == "竿"@ {
        read == "サオ"@
    } else if n == "筋"@ {
        read == "スジ"@
    } else if n == "桁"@ {
        read == "ケタ"@
    } else if n == "ケタ"@ {
        read == "ケタ"@
    } else if n == "月"@ {
        read == "ツキ"@
    } else if n == "言"@ {
        read == "コト"@
    } else if n == "口"@ {
        read == "クチ"@
    } else if n == "差し"@ {
        read == "サシ"@
    } else if n == "皿"@ {
        read == "サラ"@
    } else if n == "山"@ {
        read == "ヤマ"@
    } else if n == "勺"@ {
        read == "シャク"@
    } else if n == "尺"@ {
        read == "シャク"@
    } else if n == "重ね"@ {
        read == "カサネ"@ || read == "ガサネ"@
    } else if n == "振り"@ {
        read == "フリ"@
    } else if n == "針"@ {
        read == "ハリ"@
    } else if n == "切れ"@ {
        read == "キレ"@
    } else if n == "束"@ {
        read == "タバ"@
    } else if n == "続き"@ {
        read == "ツヅキ"@
    } else if n == "揃"@ {
        read == "ソロイ"@
    } else if n == "袋"@ {
        read == "フクロ"@
    } else if n == "柱"@ {
        read == "ハシラ"@
    } else if n == "張り"@ {
        read == "ハリ"@
    } else if n == "通り"@ {
        read == "トオリ"@
    } else if n == "掴み"@ {
        read == "ツカミ"@
    } else if n == "坪"@ {
        read == "ツボ"@
    } else if n == "箱"@ {
        read == "ハコ"@
    } else if n == "鉢"@ {
        read == "ハチ"@
    } else if n == "晩"@ {
        read == "バン"@
    } else if n == "品"@ {
        read == "シナ"@
    } else if n == "瓶"@ {
        read == "ビン"@
    } else if n == "分け"@ {
        read == "ワケ"@
    } else if n == "幕"@ {
        read == "マク"@
    } else if n == "夜"@ {
        read == "ヤ"@ || read == "ヨ"@
    } else if n == "粒"@ {
        read == "ツブ"@
    } else if n == "枠"@ {
        read == "ワク"@
    } else if n == "棹"@ {
        read == "サオ"@
    } else if n == "つ折"@ {
        read == "ツオリ"@
    } else if n == "つ折り"@ {
        read == "ツオリ"@
    } else if n == "つぶ"@ {
        read == "ツブ"@
    } else if n == "とき"@ {
        read == "トキ"@
    } else {
        false
    }
}

pub(crate) fn in_class3_exec(n: &str, read: &str) -> (r: bool)
    ensures
        r == in_class3(n@, read@),
{
    if str_eq(n, "棟") {
        str_eq(read, "ムネ")
    } else if str_eq(n, "かけ") {
        str_eq(read, "カケ")
    } else if str_eq(n, "くだり") {
        str_eq(read, "クダリ")
    } else if str_eq(n, "けた") {
        str_eq(read, "ケタ")
    } else if str_eq(n, "すじ") {
        str_eq(read, "スジ")
    } else if str_eq(n, "そろい") {
        str_eq(read, "ソロイ")
    } else if str_eq(n, "たび") {
        str_eq(read, "タビ")
    } else if str_eq(n, "つかみ") {
        str_eq(read, "ツカミ")
    } else if str_eq(n, "つがい") {
        str_eq(read, "ツガイ")
    } else if str_eq(n, "つまみ") {
        str_eq(read, "ツマミ")
    } else if str_eq(n, "とおり") {
        str_eq(read, "トオリ")
    } else if str_eq(n, "ところ") {
        str_eq(read, "トコロ")
    } else if str_eq(n, "とせ") {
        str_eq(read, "トセ")
    } else if str_eq(n, "まわり") {
        str_eq(read, "マワリ")
    } else if str_eq(n, "シーズン") {
        str_eq(read, "シーズン")
    } else if str_eq(n, "セット") {
        str_eq(read, "セット")
    } else if str_eq(n, "握り") {
        str_eq(read, "ニギリ")
    } else if str_eq(n, "回り") {
        str_eq(read, "マワリ")
    } else if str_eq(n, "株") {
        str_eq(read, "カブ")
    } else if str_eq(n, "竿") {
        str_eq(read, "サオ")
    } else if str_eq(n, "筋") {
        str_eq(read, "スジ")
    } else if str_eq(n, "桁") {
        str_eq(read, "ケタ")
    } else if str_eq(n, "ケタ") {
        str_eq(read, "ケタ")
    } else if str_eq(n, "月") {
        str_eq(read, "ツキ")
    } else if str_eq(n, "言") {
        str_eq(read, "コト")
    } else if str_eq(n, "口") {
        str_eq(read, "クチ")
    } else if str_eq(n, "差し") {
        str_eq(read, "サシ")
    } else if str_eq(n, "皿") {
        str_eq(read, "サラ")
    } else if str_eq(n, "山") {
        str_eq(read, "ヤマ")
    } else if str_eq(n, "勺") {
        str_eq(read, "シャク")
    } else if str_eq(n, "尺") {
        str_eq(read, "シャク")
    } else if str_eq(n, "重ね") {
        str_eq(read, "カサネ") || str_eq(read, "ガサネ")
    } else if str_eq(n, "振り") {
        str_eq(read, "フリ")
    } else if str_eq(n, "針") {
        str_eq(read, "ハリ")
    } else if str_eq(n, "切れ") {
        str_eq(read, "キレ")
    } else if str_eq(n, "束") {
        str_eq(read, "タバ")
    } else if str_eq(n, "続き") {
        str_eq(read, "ツヅキ")
    } else if str_eq(n, "揃") {
        str_eq(read, "ソロイ")
    } else if str_eq(n, "袋") {
        str_eq(read, "フクロ")
    } else if str_eq(n, "柱") {
        str_eq(read, "ハシラ")
    } else if str_eq(n, "張り") {
        str_eq(read, "ハリ")
    } else if str_eq(n, "通り") {
        str_eq(read, "トオリ")
    } else if str_eq(n, "掴み") {
        str_eq(read, "ツカミ")
    } else if str_eq(n, "坪") {
        str_eq(read, "ツボ")
    } else if str_eq(n, "箱") {
        str_eq(read, "ハコ")
    } else if str_eq(n, "鉢") {
        str_eq(read, "ハチ")
    } else if str_eq(n, "晩") {
        str_eq(read, "バン")
    } else if str_eq(n, "品") {
        str_eq(read, "シナ")
    } else if str_eq(n, "瓶") {
        str_eq(read, "ビン")
    } else if str_eq(n, "分け") {
        str_eq(read, "ワケ")
    } else if str_eq(n, "幕") {
        str_eq(read, "マク")
    } else if str_eq(n, "夜") {
        str_eq(read, "ヤ") || str_eq(read, "ヨ")
    } else if str_eq(n, "粒") {
        str_eq(read, "ツブ")
    } else if str_eq(n, "枠") {
        str_eq(read, "ワク")
    } else if str_eq(n, "棹") {
        str_eq(read, "サオ")
    } else if str_eq(n, "つ折") {
        str_eq(read, "ツオリ")
    } else if str_eq(n, "つ折り") {
        str_eq(read, "ツオリ")
    } else if str_eq(n, "つぶ") {
        str_eq(read, "ツブ")
    } else if str_eq(n, "とき") {
        str_eq(read, "トキ")
    } else {
        false
    }
}

/// The native reading of the digit `d` before a counter word of table 3.
pub open spec fn class3_pron(d: Seq<char>) -> Option<(Seq<MoraEnum>, nat)> {
    if d == "一"@ {
        Some((seq![MoraEnum::Hi, MoraEnum::To], 0nat))
    } else if d == "二"@ {
        Some((seq![MoraEnum::Fu, MoraEnum::Ta], 0nat))
    } else {
        None
    }
}

pub(crate) fn class3_lookup(d: &str) -> (r: Option<(&'static [MoraEnum], usize)>)
    ensures
        match r {
            Some((ms, a)) => class3_pron(d@) == Some((ms@, a as nat)),
            None => class3_pron(d@) is None,
        },
{
    if str_eq(d, "一") {
        Some((&[MoraEnum::Hi, MoraEnum::To], 0))
    } else if str_eq(d, "二") {
        Some((&[MoraEnum::Fu, MoraEnum::Ta], 0))
    } else {
        None
    }
}

/// The numeral that a digit word is normalized to.
pub open spec fn digit_normal(s: Seq<char>) -> Option<Seq<char>> {
    if s == "○"@ {
        Some("〇"@)
    } else if s == "１"@ {
        Some("一"@)
    } else if s == "２"@ {
        Some("二"@)
    } else if s == "３"@ {
        Some("三"@)
    } else if s == "４"@ {
        Some("四"@)
    } else if s == "５"@ {
        Some("五"@)
    } else if s == "６"@ {
        Some("六"@)
    } else if s == "７"@ {
        Some("七"@)
    } else if s == "８"@ {
        Some("八"@)
    } else if s == "９"@ {
        Some("九"@)
    } else if s == "一"@ {
        Some("一"@)
    } else if s == "二"@ {
        Some("二"@)
    } else if s == "三"@ {
        Some("三"@)
    } else if s == "四"@ {
        Some("四"@)
    } else if s == "五"@ {
        Some("五"@)
    } else if s == "六"@ {
        Some("六"@)
    } else if s == "七"@ {
        Some("七"@)
    } else if s == "八"@ {
        Some("八"@)
    } else if s == "九"@ {
        Some("九"@)
    } else if s == "いち"@ {
        Some("一"@)
    } else if s == "に"@ {
        Some("二"@)
    } else if s == "さん"@ {
        Some("三"@)
    } else if s == "よん"@ {
        Some("四"@)
    } else if s == "ご"@ {
        Some("五"@)
    } else if s == "ろく"@ {
        Some("六"@)
    } else if s == "なな"@ {
        Some("七"@)
    } else if s == "はち"@ {
        Some("八"@)
    } else if s == "きゅう"@ {
        Some("九"@)
    } else if s == "〇"@ {
        Some("〇"@)
    } else if s == "０"@ {
        Some("０"@)
    } else if s == "壱"@ {
        Some("一"@)
    } else if s == "弐"@ {
        Some("二"@)
    } else if s == "貳"@ {
        Some("二"@)
    } else if s == "ニ"@ {
        Some("二"@)
    } else if s == "参"@ {
        Some("三"@)
    } else if s == "し"@ {
        Some("四"@)
    } else if s == "しち"@ {
        Some("七"@)
    } else if s == "く"@ {
        Some("九"@)
    } else {
        None
    }
}

pub(crate) fn digit_normal_lookup(s: &str) -> (r: Option<&'static str>)
    ensures
        match r {
            Some(v) => digit_normal(s@) == Some(v@),
            None => digit_normal(s@) is None,
        },
{
    if str_eq(s, "○") {
        Some("〇")
    } else if str_eq(s, "１") {
        Some("一")
    } else if str_eq(s, "２") {
        Some("二")
    } else if str_eq(s, "３") {
        Some("三")
    } else if str_eq(s, "４") {
        Some("四")
    } else if str_eq(s, "５") {
        Some("五")
    } else if str_eq(s, "６") {
        Some("六")
    } else if str_eq(s, "７") {
        Some("七")
    } else if str_eq(s, "８") {
        Some("八")
    } else if str_eq(s, "９") {
        Some("九")
    } else if str_eq(s, "一") {
        Some("一")
    } else if str_eq(s, "二") {
        Some("二")
    } else if str_eq(s, "三") {
        Some("三")
    } else if str_eq(s, "四") {
        Some("四")
    } else if str_eq(s, "五") {
        Some("五")
    } else if str_eq(s, "六") {
        Some("六")
    } else if str_eq(s, "七") {
        Some("七")
    } else if str_eq(s, "八") {
        Some("八")
    } else if str_eq(s, "九") {
        Some("九")
    } else if str_eq(s, "いち") {
        Some("一")
    } else if str_eq(s, "に") {
        Some("二")
    } else if str_eq(s, "さん") {
        Some("三")
    } else if str_eq(s, "よん") {
        Some("四")
    } else if str_eq(s, "ご") {
        Some("五")
    } else if str_eq(s, "ろく") {
        Some("六")
    } else if str_eq(s, "なな") {
        Some("七")
    } else if str_eq(s, "はち") {
        Some("八")
    } else if str_eq(s, "きゅう") {
        Some("九")
    } else if str_eq(s, "〇") {
        Some("〇")
    } else if str_eq(s, "０") {
        Some("０")
    } else if str_eq(s, "壱") {
        Some("一")
    } else if str_eq(s, "弐") {
        Some("二")
    } else if str_eq(s, "貳") {
        Some("二")
    } else if str_eq(s, "ニ") {
        Some("二")
    } else if str_eq(s, "参") {
        Some("三")
    } else if str_eq(s, "し") {
        Some("四")
    } else if str_eq(s, "しち") {
        Some("七")
    } else if str_eq(s, "く") {
        Some("九")
    } else {
        None
    }
}
} // verus!
