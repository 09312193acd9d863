//! The conversion scenarios the engine must reproduce, from single
//! components through full sentences.

use chamsae::hangul::HangulConverter;

#[test]
fn test_choseong_basic() {
    let c = HangulConverter::new();

    assert_eq!(c.convert("ga"), "가");
    assert_eq!(c.convert("na"), "나");
    assert_eq!(c.convert("da"), "다");
    assert_eq!(c.convert("ra"), "라");
    assert_eq!(c.convert("la"), "라");
    assert_eq!(c.convert("ma"), "마");
    assert_eq!(c.convert("ba"), "바");
    assert_eq!(c.convert("sa"), "사");
    assert_eq!(c.convert("ja"), "자");
    assert_eq!(c.convert("ha"), "하");
}

#[test]
fn test_choseong_aspirated() {
    let c = HangulConverter::new();

    assert_eq!(c.convert("ka"), "카");
    assert_eq!(c.convert("ta"), "타");
    assert_eq!(c.convert("pa"), "파");
    assert_eq!(c.convert("cha"), "차");
}

#[test]
fn test_choseong_tense() {
    let c = HangulConverter::new();

    assert_eq!(c.convert("kka"), "까");
    assert_eq!(c.convert("gga"), "까");
    assert_eq!(c.convert("dda"), "따");
    assert_eq!(c.convert("tta"), "따");
    assert_eq!(c.convert("bba"), "빠");
    assert_eq!(c.convert("ppa"), "빠");
    assert_eq!(c.convert("ssa"), "싸");
    assert_eq!(c.convert("jja"), "짜");
}

#[test]
fn test_jungseong_basic() {
    let c = HangulConverter::new();

    assert_eq!(c.convert("a"), "아");
    assert_eq!(c.convert("eo"), "어");
    assert_eq!(c.convert("o"), "오");
    assert_eq!(c.convert("u"), "우");
    assert_eq!(c.convert("eu"), "으");
    assert_eq!(c.convert("i"), "이");
}

#[test]
fn test_jungseong_compound_ae() {
    let c = HangulConverter::new();

    assert_eq!(c.convert("ae"), "애");
    assert_eq!(c.convert("e"), "에");
    assert_eq!(c.convert("yae"), "얘");
    assert_eq!(c.convert("ye"), "예");
}

#[test]
fn test_jungseong_y_glide() {
    let c = HangulConverter::new();

    assert_eq!(c.convert("ya"), "야");
    assert_eq!(c.convert("yeo"), "여");
    assert_eq!(c.convert("yo"), "요");
    assert_eq!(c.convert("yu"), "유");
}

#[test]
fn test_jungseong_w_glide() {
    let c = HangulConverter::new();

    assert_eq!(c.convert("wa"), "와");
    assert_eq!(c.convert("wae"), "왜");
    assert_eq!(c.convert("wo"), "워");
    assert_eq!(c.convert("we"), "웨");
    assert_eq!(c.convert("wi"), "위");
}

#[test]
fn test_jungseong_special() {
    let c = HangulConverter::new();

    assert_eq!(c.convert("oe"), "외");
    assert_eq!(c.convert("ui"), "의");
}

#[test]
fn test_jongseong_basic() {
    let c = HangulConverter::new();

    assert_eq!(c.convert("gag"), "각");
    assert_eq!(c.convert("gan"), "간");
    assert_eq!(c.convert("gad"), "갇");
    assert_eq!(c.convert("gal"), "갈");
    assert_eq!(c.convert("gam"), "감");
    assert_eq!(c.convert("gab"), "갑");
    assert_eq!(c.convert("gas"), "갓");
    assert_eq!(c.convert("gang"), "강");
    assert_eq!(c.convert("gaj"), "갖");
    assert_eq!(c.convert("gak"), "갘");
    assert_eq!(c.convert("gat"), "같");
    assert_eq!(c.convert("gap"), "갚");
    assert_eq!(c.convert("gah"), "갛");
}

#[test]
fn test_jongseong_double() {
    let c = HangulConverter::new();

    assert_eq!(c.convert("gags"), "갃");
    assert_eq!(c.convert("ganj"), "갅");
    assert_eq!(c.convert("ganh"), "갆");
    assert_eq!(c.convert("galg"), "갉");
    assert_eq!(c.convert("galm"), "갊");
    assert_eq!(c.convert("galb"), "갋");
    assert_eq!(c.convert("gals"), "갌");
    assert_eq!(c.convert("galt"), "갍");
    assert_eq!(c.convert("galp"), "갎");
    assert_eq!(c.convert("galh"), "갏");
    assert_eq!(c.convert("gabs"), "값");
}

#[test]
fn test_jongseong_tense() {
    let c = HangulConverter::new();

    assert_eq!(c.convert("gagg"), "갂");
    assert_eq!(c.convert("gass"), "갔");
}

#[test]
fn test_syllable_boundary() {
    let c = HangulConverter::new();

    assert_eq!(c.convert("han gug"), "한국");
    assert_eq!(c.convert("han gug eo"), "한국어");
    assert_eq!(c.convert("gug eo"), "국어");
}

#[test]
fn test_words_common() {
    let c = HangulConverter::new();

    assert_eq!(c.convert("an nyeong"), "안녕");
    assert_eq!(c.convert("gam sa hab ni da"), "감사합니다");
    assert_eq!(c.convert("sa rang"), "사랑");
    assert_eq!(c.convert("chin gu"), "친구");
    assert_eq!(c.convert("hag gyo"), "학교");
    assert_eq!(c.convert("seon saeng nim"), "선생님");
}

#[test]
fn test_words_with_tense() {
    let c = HangulConverter::new();

    assert_eq!(c.convert("a bba"), "아빠");
    assert_eq!(c.convert("eom ma"), "엄마");
    assert_eq!(c.convert("bbang"), "빵");
}

#[test]
fn test_space_delimiter() {
    let c = HangulConverter::new();

    assert_eq!(c.convert("na neun"), "나는");
    assert_eq!(c.convert("neo neun"), "너는");
}

#[test]
fn test_space_literal() {
    let c = HangulConverter::new();

    assert_eq!(c.convert("an nyeong  ha se yo"), "안녕 하세요");
    assert_eq!(c.convert("na neun  hag saeng  ib ni da"), "나는 학생 입니다");
}

#[test]
fn test_space_multiple() {
    let c = HangulConverter::new();

    assert_eq!(c.convert("a   beu"), "아 브");
    assert_eq!(c.convert("a    beu"), "아  브");
}

#[test]
fn test_edge_empty() {
    let c = HangulConverter::new();

    assert_eq!(c.convert(""), "");
}

#[test]
fn test_edge_passthrough() {
    let c = HangulConverter::new();

    assert_eq!(c.convert("123"), "123");
    assert_eq!(c.convert("!@#"), "!@#");
    assert_eq!(c.convert("f"), "f");
    assert_eq!(c.convert("x"), "x");
    assert_eq!(c.convert("z"), "z");
}

#[test]
fn test_edge_mixed() {
    let c = HangulConverter::new();

    assert_eq!(c.convert("han gug 123"), "한국123");
    assert_eq!(c.convert("test ga na da"), "텟t가나다");
}

#[test]
fn test_edge_case_sensitivity() {
    let c = HangulConverter::new();

    assert_eq!(c.convert("GA"), "가");
    assert_eq!(c.convert("HAN GUG"), "한국");
}

#[test]
fn test_liaison() {
    let c = HangulConverter::new();

    assert_eq!(c.convert("gug eo"), "국어");

    assert_eq!(c.convert("gugeo"), "구거");

    assert_eq!(c.convert("dog ib"), "독입");
    assert_eq!(c.convert("hab ni da"), "합니다");
}

#[test]
fn test_complex_combinations() {
    let c = HangulConverter::new();

    assert_eq!(c.convert("ssya"), "쌰");
    assert_eq!(c.convert("bbyeo"), "뼈");

    assert_eq!(c.convert("chwa"), "촤");
    assert_eq!(c.convert("kwe"), "퀘");

    assert_eq!(c.convert("walg"), "왉");
    assert_eq!(c.convert("oelm"), "욂");
}

#[test]
fn test_continuous_syllables() {
    let c = HangulConverter::new();

    assert_eq!(c.convert("ga na da"), "가나다");
    assert_eq!(c.convert("a ya eo yeo"), "아야어여");
    assert_eq!(c.convert("gag nan dam"), "각난담");
}

#[test]
fn test_boundary_vowel_sequences() {
    let c = HangulConverter::new();

    assert_eq!(c.convert("a i u"), "아이우");
    assert_eq!(c.convert("o eu i"), "오으이");
}

#[test]
fn test_boundary_consonant_only() {
    let c = HangulConverter::new();

    assert_eq!(c.convert("g"), "g");
    assert_eq!(c.convert("ng"), "ng");
    assert_eq!(c.convert("gg"), "gg");
    assert_eq!(c.convert("kk"), "kk");
    assert_eq!(c.convert("jj"), "jj");
    assert_eq!(c.convert("bb"), "bb");
    assert_eq!(c.convert("pp"), "pp");
    assert_eq!(c.convert("dd"), "dd");
    assert_eq!(c.convert("tt"), "tt");
    assert_eq!(c.convert("ss"), "ss");
}

#[test]
fn test_boundary_repeated_chars() {
    let c = HangulConverter::new();

    assert_eq!(c.convert("aaa"), "아아아");
    assert_eq!(c.convert("gaga"), "가가");
}

#[test]
fn test_practical_words() {
    let c = HangulConverter::new();

    assert_eq!(c.convert("an nyeong ha se yo"), "안녕하세요");
    assert_eq!(c.convert("an nyeong hi ga se yo"), "안녕히가세요");
    assert_eq!(c.convert("an nyeong hi gye se yo"), "안녕히계세요");

    assert_eq!(c.convert("il i sam sa o"), "일이삼사오");
    assert_eq!(c.convert("yug chil pal gu sib"), "육칠팔구십");

    assert_eq!(c.convert("wol hwa su mog geum to il"), "월화수목금토일");
}

#[test]
fn test_practical_phrases() {
    let c = HangulConverter::new();

    assert_eq!(c.convert("jeo neun  il bon  sa ram  ib ni da"), "저는 일본 사람 입니다");
    assert_eq!(c.convert("man na seo  ban gab seub ni da"), "만나서 반갑습니다");
}

#[test]
fn test_long_input() {
    let c = HangulConverter::new();

    let input = "ga na da la ma ba sa a ja cha ka ta pa ha";
    let output = c.convert(input);
    assert_eq!(output.chars().count(), 14);
}

#[test]
fn test_input_variations() {
    let c = HangulConverter::new();

    assert_eq!(c.convert("HaN GuG"), "한국");
    assert_eq!(c.convert("ANNYEONG"), "안녕");

    assert_eq!(c.convert(" ga"), "가");
    assert_eq!(c.convert("ga "), "가");
    assert_eq!(c.convert("  ga"), " 가");
}

#[test]
fn test_regression_known_issues() {
    let c = HangulConverter::new();

    assert_eq!(c.convert("han gug eo"), "한국어");
    assert_eq!(c.convert("gam sa hab ni da"), "감사합니다");
    assert_eq!(c.convert("eom ma"), "엄마");
}

#[test]
fn test_choseong_complete() {
    let c = HangulConverter::new();

    assert_eq!(c.convert("ga"), "가");
    assert_eq!(c.convert("gga"), "까");
    assert_eq!(c.convert("kka"), "까");
    assert_eq!(c.convert("na"), "나");
    assert_eq!(c.convert("da"), "다");
    assert_eq!(c.convert("dda"), "따");
    assert_eq!(c.convert("tta"), "따");
    assert_eq!(c.convert("ra"), "라");
    assert_eq!(c.convert("ma"), "마");
    assert_eq!(c.convert("ba"), "바");
    assert_eq!(c.convert("bba"), "빠");
    assert_eq!(c.convert("ppa"), "빠");
    assert_eq!(c.convert("sa"), "사");
    assert_eq!(c.convert("ssa"), "싸");
    assert_eq!(c.convert("a"), "아");
    assert_eq!(c.convert("ja"), "자");
    assert_eq!(c.convert("jja"), "짜");
    assert_eq!(c.convert("cha"), "차");
    assert_eq!(c.convert("ka"), "카");
    assert_eq!(c.convert("ta"), "타");
    assert_eq!(c.convert("pa"), "파");
    assert_eq!(c.convert("ha"), "하");
}

#[test]
fn test_jungseong_complete() {
    let c = HangulConverter::new();

    assert_eq!(c.convert("a"), "아");
    assert_eq!(c.convert("ae"), "애");
    assert_eq!(c.convert("ya"), "야");
    assert_eq!(c.convert("yae"), "얘");
    assert_eq!(c.convert("eo"), "어");
    assert_eq!(c.convert("e"), "에");
    assert_eq!(c.convert("yeo"), "여");
    assert_eq!(c.convert("ye"), "예");
    assert_eq!(c.convert("o"), "오");
    assert_eq!(c.convert("wa"), "와");
    assert_eq!(c.convert("wae"), "왜");
    assert_eq!(c.convert("oe"), "외");
    assert_eq!(c.convert("yo"), "요");
    assert_eq!(c.convert("u"), "우");
    assert_eq!(c.convert("wo"), "워");
    assert_eq!(c.convert("we"), "웨");
    assert_eq!(c.convert("wi"), "위");
    assert_eq!(c.convert("yu"), "유");
    assert_eq!(c.convert("eu"), "으");
    assert_eq!(c.convert("ui"), "의");
    assert_eq!(c.convert("i"), "이");
}

#[test]
fn test_jongseong_complete() {
    let c = HangulConverter::new();

    assert_eq!(c.convert("gag"), "각");
    assert_eq!(c.convert("gagg"), "갂");
    assert_eq!(c.convert("gags"), "갃");
    assert_eq!(c.convert("gan"), "간");
    assert_eq!(c.convert("ganj"), "갅");
    assert_eq!(c.convert("ganh"), "갆");
    assert_eq!(c.convert("gad"), "갇");
    assert_eq!(c.convert("gal"), "갈");
    assert_eq!(c.convert("galg"), "갉");
    assert_eq!(c.convert("galm"), "갊");
    assert_eq!(c.convert("galb"), "갋");
    assert_eq!(c.convert("gals"), "갌");
    assert_eq!(c.convert("galt"), "갍");
    assert_eq!(c.convert("galp"), "갎");
    assert_eq!(c.convert("galh"), "갏");
    assert_eq!(c.convert("gam"), "감");
    assert_eq!(c.convert("gab"), "갑");
    assert_eq!(c.convert("gabs"), "값");
    assert_eq!(c.convert("gas"), "갓");
    assert_eq!(c.convert("gass"), "갔");
    assert_eq!(c.convert("gang"), "강");
    assert_eq!(c.convert("gaj"), "갖");
    assert_eq!(c.convert("gach"), "갗");
    assert_eq!(c.convert("gak"), "갘");
    assert_eq!(c.convert("gat"), "같");
    assert_eq!(c.convert("gap"), "갚");
    assert_eq!(c.convert("gah"), "갛");
}

#[test]
fn test_common_korean_words() {
    let c = HangulConverter::new();

    assert_eq!(c.convert("mul"), "물");
    assert_eq!(c.convert("bul"), "불");
    assert_eq!(c.convert("bab"), "밥");
    assert_eq!(c.convert("jib"), "집");
    assert_eq!(c.convert("chaeg"), "책");
    assert_eq!(c.convert("hag gyo"), "학교");
    assert_eq!(c.convert("seon saeng"), "선생");
    assert_eq!(c.convert("hag saeng"), "학생");

    assert_eq!(c.convert("ga da"), "가다");
    assert_eq!(c.convert("o da"), "오다");
    assert_eq!(c.convert("meog da"), "먹다");
    assert_eq!(c.convert("ma si da"), "마시다");
    assert_eq!(c.convert("bo da"), "보다");
    assert_eq!(c.convert("deud da"), "듣다");

    assert_eq!(c.convert("joh da"), "좋다");
    assert_eq!(c.convert("na bbeu da"), "나쁘다");
    assert_eq!(c.convert("keu da"), "크다");
    assert_eq!(c.convert("jag da"), "작다");
}

#[test]
fn test_common_phrases() {
    let c = HangulConverter::new();

    assert_eq!(c.convert("ne"), "네");
    assert_eq!(c.convert("a ni yo"), "아니요");
    assert_eq!(c.convert("gwaen chanh a yo"), "괜찮아요");
    assert_eq!(c.convert("mo reu gess eo yo"), "모르겠어요");
    assert_eq!(c.convert("al gess seub ni da"), "알겠습니다");
}

#[test]
fn test_complex_words_double_jongseong() {
    let c = HangulConverter::new();

    assert_eq!(c.convert("dalg"), "닭");
    assert_eq!(c.convert("heulg"), "흙");
    assert_eq!(c.convert("salm"), "삶");
    assert_eq!(c.convert("jeolm da"), "젊다");
    assert_eq!(c.convert("ilg da"), "읽다");
    assert_eq!(c.convert("balb da"), "밟다");
    assert_eq!(c.convert("eobs da"), "없다");
    assert_eq!(c.convert("gabs"), "값");
    assert_eq!(c.convert("sags"), "삯");
    assert_eq!(c.convert("neolb da"), "넓다");
}

#[test]
fn test_complex_words_tense_consonants() {
    let c = HangulConverter::new();

    assert_eq!(c.convert("eo ggae"), "어깨");
    assert_eq!(c.convert("o bba"), "오빠");
    assert_eq!(c.convert("eo ddeoh ge"), "어떻게");
    assert_eq!(c.convert("a jig"), "아직");
    assert_eq!(c.convert("eo jjae"), "어째");
    assert_eq!(c.convert("ggo ma"), "꼬마");
    assert_eq!(c.convert("ssa u da"), "싸우다");
    assert_eq!(c.convert("na bbeu da"), "나쁘다");
    assert_eq!(c.convert("ye bbeu da"), "예쁘다");
    assert_eq!(c.convert("ba bbeu da"), "바쁘다");
}

#[test]
fn test_complex_words_aspirated_consonants() {
    let c = HangulConverter::new();

    assert_eq!(c.convert("chim dae"), "침대");
    assert_eq!(c.convert("chin gu"), "친구");
    assert_eq!(c.convert("keo pi"), "커피");
    assert_eq!(c.convert("ta da"), "타다");
    assert_eq!(c.convert("pa ran saeg"), "파란색");
    assert_eq!(c.convert("keu da"), "크다");
    assert_eq!(c.convert("pyeon ji"), "편지");
    assert_eq!(c.convert("chug gu"), "축구");
    assert_eq!(c.convert("pyo"), "표");
    assert_eq!(c.convert("hyang gi"), "향기");
}

#[test]
fn test_complex_words_compound_vowels() {
    let c = HangulConverter::new();

    assert_eq!(c.convert("goe mul"), "괴물");
    assert_eq!(c.convert("hoe sa"), "회사");
    assert_eq!(c.convert("ui sa"), "의사");
    assert_eq!(c.convert("gwi"), "귀");
    assert_eq!(c.convert("gwa il"), "과일");
    assert_eq!(c.convert("wae"), "왜");
    assert_eq!(c.convert("wol yo il"), "월요일");
    assert_eq!(c.convert("swi da"), "쉬다");
    assert_eq!(c.convert("dwi"), "뒤");
    assert_eq!(c.convert("bwa"), "봐");
}

#[test]
fn test_complex_words_long() {
    let c = HangulConverter::new();

    assert_eq!(c.convert("dae han min gug"), "대한민국");
    assert_eq!(c.convert("gyeong bog gung"), "경복궁");
    assert_eq!(c.convert("in cheon gug je gong hang"), "인천국제공항");
    assert_eq!(c.convert("dae tong ryeong"), "대통령");
    assert_eq!(c.convert("chung cheong nam do"), "충청남도");
    assert_eq!(c.convert("bu san gwang yeog si"), "부산광역시");
}

#[test]
fn test_complex_words_foreign_loanwords() {
    let c = HangulConverter::new();

    assert_eq!(c.convert("keo pi"), "커피");
    assert_eq!(c.convert("keom pyu teo"), "컴퓨터");
    assert_eq!(c.convert("tel le bi jeon"), "텔레비전");
    assert_eq!(c.convert("in teo nes"), "인터넷");
    assert_eq!(c.convert("seu ma teu pon"), "스마트폰");
    assert_eq!(c.convert("ho tel"), "호텔");
    assert_eq!(c.convert("taeg si"), "택시");
    assert_eq!(c.convert("beo seu"), "버스");
    assert_eq!(c.convert("pi a no"), "피아노");
    assert_eq!(c.convert("ka me ra"), "카메라");
}

#[test]
fn test_complex_words_conjugation() {
    let c = HangulConverter::new();

    assert_eq!(c.convert("meog eoss da"), "먹었다");
    assert_eq!(c.convert("ga go iss da"), "가고있다");
    assert_eq!(c.convert("ha go sip da"), "하고싶다");
    assert_eq!(c.convert("bol su iss da"), "볼수있다");
    assert_eq!(c.convert("hae ya ha da"), "해야하다");
    assert_eq!(c.convert("meog eul geos i da"), "먹을것이다");

    assert_eq!(c.convert("deu syeoss seub ni da"), "드셨습니다");
    assert_eq!(c.convert("gye sib ni da"), "계십니다");
    assert_eq!(c.convert("ju se yo"), "주세요");
}

#[test]
fn test_complex_words_particles() {
    let c = HangulConverter::new();

    assert_eq!(c.convert("hag gyo e seo"), "학교에서");
    assert_eq!(c.convert("jib eu ro"), "집으로");
    assert_eq!(c.convert("chin gu wa"), "친구와");
    assert_eq!(c.convert("chaeg eul"), "책을");
    assert_eq!(c.convert("mul i"), "물이");
    assert_eq!(c.convert("sa ram eun"), "사람은");
    assert_eq!(c.convert("na ra ui"), "나라의");
}

#[test]
fn test_complex_words_difficult_pronunciation() {
    let c = HangulConverter::new();

    assert_eq!(c.convert("chwi eob"), "취업");
    assert_eq!(c.convert("gwan gwang"), "관광");
    assert_eq!(c.convert("gyeol hon"), "결혼");
    assert_eq!(c.convert("cheol hag"), "철학");
    assert_eq!(c.convert("sim ri hag"), "심리학");
    assert_eq!(c.convert("gyeong je hag"), "경제학");
    assert_eq!(c.convert("jeong chi"), "정치");
    assert_eq!(c.convert("mun hwa"), "문화");
    assert_eq!(c.convert("yeog sa"), "역사");
    assert_eq!(c.convert("gwa hag"), "과학");
}

#[test]
fn test_complex_sentences() {
    let c = HangulConverter::new();

    assert_eq!(
        c.convert("na neun  hag saeng  ib ni da"),
        "나는 학생 입니다"
    );

    assert_eq!(
        c.convert("o neul  nal ssi ga  joh seub ni da"),
        "오늘 날씨가 좋습니다"
    );

    assert_eq!(
        c.convert("han gug eo reul  gong bu  ha go  iss seub ni da"),
        "한국어를 공부 하고 있습니다"
    );

    assert_eq!(
        c.convert("man na seo  ban gab seub ni da"),
        "만나서 반갑습니다"
    );
}
