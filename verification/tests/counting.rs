use ccwc::counting::is_ascii_space;
use ccwc::utf8_text::count_chars;
use ccwc::{WCCmd, WCInput, WCOutput};

fn request(bytes: bool, lines: bool, words: bool, chars: bool) -> WCCmd {
    let mut wc = WCCmd::default();
    wc.bytes = bytes;
    wc.lines = lines;
    wc.words = words;
    wc.chars = chars;
    wc
}

fn count_stdin(wc: &WCCmd, content: &[u8]) -> WCOutput {
    wc.count(&WCInput::StdIn(), &content.to_vec())
}

fn tuple(out: &WCOutput) -> (u64, u64, u64, u64) {
    (out.byte_ct, out.line_ct, out.word_ct, out.char_ct)
}

#[test]
fn whitespace_is_the_five_ascii_bytes() {
    let mut b: u8 = 0;
    loop {
        assert_eq!(is_ascii_space(b), b.is_ascii_whitespace());
        if b == u8::MAX {
            break;
        }
        b += 1;
    }
    assert!(is_ascii_space(b' '));
    assert!(is_ascii_space(b'\t'));
    assert!(is_ascii_space(b'\n'));
    assert!(is_ascii_space(0x0C));
    assert!(is_ascii_space(b'\r'));
    assert!(!is_ascii_space(0x0B));
    assert!(!is_ascii_space(0xA0));
    assert!(!is_ascii_space(b'a'));
    assert!(!is_ascii_space(0));
}

#[test]
fn default_mode_counts_lines_words_bytes() {
    let wc = WCCmd::default();
    let out = count_stdin(&wc, b"foo bar\nbaz\n");
    assert_eq!(out.line_ct, 2);
    assert_eq!(out.word_ct, 3);
    assert_eq!(out.byte_ct, 12);
    assert_eq!(out.char_ct, 0);
    assert_eq!(out.filename, None);
    assert_eq!(out.as_string(&wc), "\t2\t3\t12");
}

#[test]
fn chars_only_counts_scalar_values() {
    let wc = request(false, false, false, true);
    let text = "héllo";
    assert_eq!(text.len(), 6);
    let out = count_stdin(&wc, text.as_bytes());
    assert_eq!(tuple(&out), (0, 0, 0, 5));
    assert_eq!(out.as_string(&wc), "\t5");
}

#[test]
fn chars_of_invalid_utf8_fall_back_to_bytes() {
    let wc = request(false, false, false, true);
    let out = count_stdin(&wc, &[0xFF]);
    assert_eq!(out.char_ct, 1);
    assert_eq!(out.as_string(&wc), "\t1");
}

#[test]
fn chars_and_bytes_of_invalid_utf8_agree() {
    let wc = request(true, false, false, true);
    let out = count_stdin(&wc, &[b'a', 0xFF, b'b', 0xFE]);
    assert_eq!(out.byte_ct, 4);
    assert_eq!(out.char_ct, 4);
}

#[test]
fn empty_input_counts_zero_under_every_request() {
    let mut mask = 0;
    while mask < 16 {
        let wc = request(mask & 1 != 0, mask & 2 != 0, mask & 4 != 0, mask & 8 != 0);
        let out = count_stdin(&wc, b"");
        assert_eq!(tuple(&out), (0, 0, 0, 0));
        mask += 1;
    }
}

#[test]
fn byte_count_is_length_when_asked_or_default() {
    let samples: Vec<&[u8]> = vec![b"", b"a", b"hello world\n", &[0xFF, 0x00, 0x0A, 0x80], "héllo 😀".as_bytes()];
    for s in samples {
        let mut mask = 0;
        while mask < 16 {
            let wc = request(mask & 1 != 0, mask & 2 != 0, mask & 4 != 0, mask & 8 != 0);
            let out = count_stdin(&wc, s);
            if wc.bytes || wc.use_default_flags() {
                assert_eq!(out.byte_ct, s.len() as u64);
            } else {
                assert_eq!(out.byte_ct, 0);
            }
            mask += 1;
        }
    }
}

#[test]
fn line_count_is_number_of_line_feeds() {
    let samples: Vec<&[u8]> = vec![b"", b"\n", b"\n\n\n", b"a\nb", b"a\r\nb\r\n", b"no newline", &[0x0A, 0xFF, 0x0A, 0x0B, 0x0D]];
    for s in samples {
        let expected = s.iter().filter(|b| **b == b'\n').count() as u64;
        let mut mask = 0;
        while mask < 16 {
            let wc = request(mask & 1 != 0, mask & 2 != 0, mask & 4 != 0, mask & 8 != 0);
            let out = count_stdin(&wc, s);
            if wc.lines || wc.use_default_flags() {
                assert_eq!(out.line_ct, expected);
            } else {
                assert_eq!(out.line_ct, 0);
            }
            mask += 1;
        }
    }
    let wc = request(false, true, false, false);
    assert_eq!(count_stdin(&wc, b"a\nb\nc").line_ct, 2);
    assert_eq!(count_stdin(&wc, b"\r\r\r").line_ct, 0);
}

#[test]
fn words_are_counted_where_whitespace_closes_them() {
    let wc = request(false, false, true, false);
    assert_eq!(count_stdin(&wc, b"").word_ct, 0);
    assert_eq!(count_stdin(&wc, b"foo bar\nbaz\n").word_ct, 3);
    assert_eq!(count_stdin(&wc, b"one two three ").word_ct, 3);
    assert_eq!(count_stdin(&wc, b"a  b\t\tc\n\n").word_ct, 3);
    assert_eq!(count_stdin(&wc, b"a\x0cb\rc ").word_ct, 3);
}

#[test]
fn word_not_closed_by_whitespace_is_not_counted() {
    let wc = request(false, false, true, false);
    assert_eq!(count_stdin(&wc, b"foo").word_ct, 0);
    assert_eq!(count_stdin(&wc, b"foo bar").word_ct, 1);
    assert_eq!(count_stdin(&wc, b"foo bar\nbaz").word_ct, 2);
}

#[test]
fn leading_whitespace_closes_a_word() {
    let wc = request(false, false, true, false);
    assert_eq!(count_stdin(&wc, b" ").word_ct, 1);
    assert_eq!(count_stdin(&wc, b"  \n").word_ct, 1);
    assert_eq!(count_stdin(&wc, b" leading").word_ct, 1);
    assert_eq!(count_stdin(&wc, b" leading ").word_ct, 2);
    assert_eq!(count_stdin(&wc, b"\n\n\n").word_ct, 1);
}

#[test]
fn vertical_tab_and_high_bytes_are_no_whitespace() {
    let wc = request(false, false, true, false);
    assert_eq!(count_stdin(&wc, b"a\x0bb ").word_ct, 1);
    assert_eq!(count_stdin(&wc, &[b'a', 0xA0, b'b', 0x85, b' ']).word_ct, 1);
}

#[test]
fn counts_not_asked_for_stay_zero() {
    let content = b"foo bar\nbaz\n";
    assert_eq!(tuple(&count_stdin(&request(true, false, false, false), content)), (12, 0, 0, 0));
    assert_eq!(tuple(&count_stdin(&request(false, true, false, false), content)), (0, 2, 0, 0));
    assert_eq!(tuple(&count_stdin(&request(false, false, true, false), content)), (0, 0, 3, 0));
    assert_eq!(tuple(&count_stdin(&request(false, false, false, true), content)), (0, 0, 0, 12));
    assert_eq!(tuple(&count_stdin(&request(true, true, true, true), content)), (12, 2, 3, 12));
}

#[test]
fn chars_are_never_implied() {
    let out = count_stdin(&WCCmd::default(), "héllo".as_bytes());
    assert_eq!(out.char_ct, 0);
    let out = count_stdin(&request(true, true, true, false), "héllo".as_bytes());
    assert_eq!(tuple(&out), (6, 0, 0, 0));
}

#[test]
fn chars_have_their_own_condition() {
    let out = count_stdin(&request(false, true, false, true), "é\né\n".as_bytes());
    assert_eq!(tuple(&out), (0, 2, 0, 4));
}

#[test]
fn count_carries_the_name_of_the_input() {
    let wc = WCCmd::default();
    let input = WCInput::File(String::from("notes.txt"));
    let out = wc.count(&input, &b"a b\n".to_vec());
    assert_eq!(out.filename, Some(String::from("notes.txt")));
    assert_eq!(out.as_string(&wc), "\t1\t2\t4 notes.txt");

    let out = wc.count(&WCInput::StdIn(), &b"a b\n".to_vec());
    assert_eq!(out.filename, None);
    assert_eq!(out.as_string(&wc), "\t1\t2\t4");
}

#[test]
fn count_chars_of_well_formed_text() {
    assert_eq!(count_chars(&Vec::new()), 0);
    assert_eq!(count_chars(&b"abc".to_vec()), 3);
    assert_eq!(count_chars(&"héllo".as_bytes().to_vec()), 5);
    assert_eq!(count_chars(&"€".as_bytes().to_vec()), 1);
    assert_eq!(count_chars(&"😀😀".as_bytes().to_vec()), 2);
    assert_eq!(count_chars(&vec![0x00]), 1);
    assert_eq!(count_chars(&vec![0xF4, 0x8F, 0xBF, 0xBF]), 1);
    assert_eq!(count_chars(&vec![0xED, 0x9F, 0xBF]), 1);
    assert_eq!(count_chars(&vec![0xEE, 0x80, 0x80]), 1);
}

#[test]
fn count_chars_of_ill_formed_bytes_is_their_number() {
    assert_eq!(count_chars(&vec![0xFF]), 1);
    assert_eq!(count_chars(&vec![0x80]), 1);
    assert_eq!(count_chars(&vec![0xC3]), 1);
    assert_eq!(count_chars(&vec![0xC0, 0x80]), 2);
    assert_eq!(count_chars(&vec![0xC1, 0xBF]), 2);
    assert_eq!(count_chars(&vec![0xE0, 0x80, 0x80]), 3);
    assert_eq!(count_chars(&vec![0xED, 0xA0, 0x80]), 3);
    assert_eq!(count_chars(&vec![0xF0, 0x80, 0x80, 0x80]), 4);
    assert_eq!(count_chars(&vec![0xF4, 0x90, 0x80, 0x80]), 4);
    assert_eq!(count_chars(&vec![0xF5, 0x80, 0x80, 0x80]), 4);
    assert_eq!(count_chars(&vec![b'a', b'b', 0xE2, 0x82]), 4);
}
