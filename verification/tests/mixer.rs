use volume_notify::mixer::{MIXER, SINK};
use volume_notify::reading::PERCENT_PATTERN;
use volume_notify::{get_volume, is_unmuted, MixerCall, MixerError};

#[test]
fn volume_is_read_from_the_mixers_answer() {
    let answer = b"Volume: front-left: 32768 /  50% / -18.06 dB,   \
        front-right: 32768 /  50% / -18.06 dB\n        balance 0.00\n";
    assert_eq!(get_volume(answer), Ok(50));
}

#[test]
fn first_percentage_counts() {
    let answer = b"Volume: front-left: 26214 /  40% / -23.88 dB,   \
        front-right: 45875 /  70% / -9.29 dB\n";
    assert_eq!(get_volume(answer), Ok(40));
}

#[test]
fn volume_above_full_is_read_as_it_stands() {
    assert_eq!(get_volume(b"Volume: mono: 98304 / 150% / 10.57 dB\n"), Ok(150));
}

#[test]
fn token_alone_is_an_answer() {
    assert_eq!(get_volume(b"60%"), Ok(60));
    assert_eq!(get_volume(b"-5%"), Ok(-5));
    assert_eq!(get_volume(b"+5%"), Ok(5));
}

#[test]
fn sign_belongs_to_the_token_only_where_digits_follow_it() {
    assert_eq!(get_volume(b"level +-7% now"), Ok(-7));
    assert_eq!(get_volume(b"level -+7% now"), Ok(7));
    assert_eq!(get_volume(b"a-b 12%"), Ok(12));
    assert_eq!(get_volume(b"3-12%"), Ok(-12));
}

#[test]
fn digits_without_percent_are_passed_over() {
    assert_eq!(get_volume(b"12 34 56% 78%"), Ok(56));
    assert_eq!(get_volume(b"12.5% of 80%"), Ok(5));
    assert_eq!(get_volume(b"% 9%"), Ok(9));
}

#[test]
fn text_beyond_ascii_may_surround_the_token() {
    assert_eq!(get_volume("Lautst\u{e4}rke: 35% \u{2014} links".as_bytes()), Ok(35));
    assert_eq!(get_volume("\u{97f3}\u{91cf} 80%".as_bytes()), Ok(80));
}

#[test]
fn answer_without_percentage_is_an_error() {
    assert_eq!(get_volume(b""), Err(MixerError::MissingPercent));
    assert_eq!(get_volume(b"Volume: front-left: 32768\n"), Err(MixerError::MissingPercent));
    assert_eq!(get_volume(b"No such entity\n"), Err(MixerError::MissingPercent));
    assert_eq!(get_volume(b"+%"), Err(MixerError::MissingPercent));
    assert_eq!(get_volume(b"50 %"), Err(MixerError::MissingPercent));
}

#[test]
fn answer_that_is_no_text_is_an_error() {
    assert_eq!(get_volume(&[0x35, 0x30, 0x25, 0xff]), Err(MixerError::InvalidText));
    assert_eq!(get_volume(&[0xc0, 0x80]), Err(MixerError::InvalidText));
    assert_eq!(get_volume(&[0xed, 0xa0, 0x80, 0x35, 0x25]), Err(MixerError::InvalidText));
    assert_eq!(is_unmuted(&[0x6e, 0x6f, 0x80]), Err(MixerError::InvalidText));
}

#[test]
fn percentage_too_large_for_a_volume_is_an_error() {
    assert_eq!(get_volume(b"Volume: 4294967296%"), Err(MixerError::OutOfRange));
    assert_eq!(get_volume(b"2147483648% then 50%"), Err(MixerError::OutOfRange));
}

#[test]
fn mute_state_is_read_from_the_mixers_answer() {
    assert_eq!(is_unmuted(b"Mute: no\n"), Ok(true));
    assert_eq!(is_unmuted(b"Mute: yes\n"), Ok(false));
}

#[test]
fn any_answer_without_no_counts_as_muted() {
    assert_eq!(is_unmuted(b""), Ok(false));
    assert_eq!(is_unmuted(b"n"), Ok(false));
    assert_eq!(is_unmuted(b"o"), Ok(false));
    assert_eq!(is_unmuted(b"on"), Ok(false));
    assert_eq!(is_unmuted(b"n o"), Ok(false));
    assert_eq!(is_unmuted(b"NO"), Ok(false));
    assert_eq!(is_unmuted("Stumm: nein\n".as_bytes()), Ok(false));
}

#[test]
fn no_anywhere_in_the_answer_counts_as_unmuted() {
    assert_eq!(is_unmuted(b"no"), Ok(true));
    assert_eq!(is_unmuted(b"nno"), Ok(true));
    assert_eq!(is_unmuted(b"Mute: yes (nothing else)\n"), Ok(true));
    assert_eq!(is_unmuted("Sourdine : non\n".as_bytes()), Ok(true));
    assert_eq!(is_unmuted(b"Mute: yes, no"), Ok(true));
}

#[test]
fn mixer_is_run_with_the_arguments_of_each_call() {
    assert_eq!(MIXER, "/usr/bin/pactl");
    assert_eq!(SINK, "@DEFAULT_SINK@");
    assert_eq!(MixerCall::GetVolume.arguments(), vec!["get-sink-volume", "@DEFAULT_SINK@"]);
    assert_eq!(MixerCall::GetMute.arguments(), vec!["get-sink-mute", "@DEFAULT_SINK@"]);
    assert_eq!(
        MixerCall::ToggleMute.arguments(),
        vec!["set-sink-mute", "@DEFAULT_SINK@", "toggle"]
    );
    assert_eq!(
        MixerCall::SetVolume(60).arguments(),
        vec!["set-sink-volume", "@DEFAULT_SINK@", "60%"]
    );
    assert_eq!(
        MixerCall::SetVolume(-5).arguments(),
        vec!["set-sink-volume", "@DEFAULT_SINK@", "-5%"]
    );
}

#[test]
fn pattern_of_the_token() {
    assert_eq!(PERCENT_PATTERN, "[+-]?[0-9]+%");
}

#[test]
fn only_the_answers_to_questions_are_read() {
    assert!(MixerCall::GetVolume.is_query());
    assert!(MixerCall::GetMute.is_query());
    assert!(!MixerCall::SetVolume(60).is_query());
    assert!(!MixerCall::ToggleMute.is_query());
}

/// The number of the token that begins first in `text`, found by trying
/// every place in turn.
fn first_token_by_hand(text: &[u8]) -> Option<Result<i32, MixerError>> {
    for start in 0..text.len() {
        for end in start + 1..=text.len() {
            let token = &text[start..end];
            let digits = if token[0] == b'+' || token[0] == b'-' { &token[1..] } else { token };
            let shaped = digits.len() >= 2
                && digits[digits.len() - 1] == b'%'
                && digits[..digits.len() - 1].iter().all(|byte| byte.is_ascii_digit());
            if shaped {
                let number = std::str::from_utf8(&token[..token.len() - 1]).unwrap().parse::<i32>();
                return Some(number.map_err(|_| MixerError::OutOfRange));
            }
        }
    }
    None
}

fn compare_every_text(symbols: &[&str], length: usize, text: &mut String, compared: &mut usize) {
    let expected = first_token_by_hand(text.as_bytes()).unwrap_or(Err(MixerError::MissingPercent));
    assert_eq!(get_volume(text.as_bytes()), expected, "in {:?}", text);
    *compared += 1;
    if length == 0 {
        return;
    }
    for symbol in symbols {
        let before = text.len();
        text.push_str(symbol);
        compare_every_text(symbols, length - 1, text, compared);
        text.truncate(before);
    }
}

const SYMBOLS: [&str; 6] = ["+", "-", "0", "7", "%", " "];

/// Compares every text that begins with `first` and goes on with up to four
/// of the symbols.
fn compare_texts_beginning_with(first: &str) {
    let mut compared = 0;
    compare_every_text(&SYMBOLS, 4, &mut String::from(first), &mut compared);
    assert_eq!(compared, 1 + 6 + 36 + 216 + 1296);
}

#[test]
fn every_text_of_up_to_four_symbols_reads_as_its_first_token() {
    compare_texts_beginning_with("");
}

#[test]
fn every_short_text_behind_a_plus_reads_as_its_first_token() {
    compare_texts_beginning_with("+");
}

#[test]
fn every_short_text_behind_a_minus_reads_as_its_first_token() {
    compare_texts_beginning_with("-");
}

#[test]
fn every_short_text_behind_a_zero_reads_as_its_first_token() {
    compare_texts_beginning_with("0");
}

#[test]
fn every_short_text_behind_a_seven_reads_as_its_first_token() {
    compare_texts_beginning_with("7");
}

#[test]
fn every_short_text_behind_a_percent_sign_reads_as_its_first_token() {
    compare_texts_beginning_with("%");
}

#[test]
fn every_short_text_behind_a_space_reads_as_its_first_token() {
    compare_texts_beginning_with(" ");
}

#[test]
fn every_short_text_with_wide_characters_reads_as_its_first_token() {
    let mut compared = 0;
    let symbols = ["-", "3", "%", "\u{e9}", "\u{20ac}"];
    compare_every_text(&symbols, 4, &mut String::new(), &mut compared);
    assert_eq!(compared, 1 + 5 + 25 + 125 + 625);
}
