use primer::blink::{Action, Blinker, Level, HOLD};
use primer::config::{read_config, ConfigError};
use primer::guessing::{guessed_line, judge_guess, pick_secret, Verdict};

#[test]
fn pick_secret_stays_in_range() {
    for _ in 0..2000 {
        let secret = pick_secret();
        assert!(1 <= secret && secret <= 100);
    }
}

#[test]
fn pick_secret_varies() {
    let first = pick_secret();
    let mut differs = false;
    for _ in 0..500 {
        let secret = pick_secret();
        if secret != first {
            differs = true;
        }
    }
    assert!(differs);
}

#[test]
fn pick_secret_reaches_both_ends() {
    let mut low = false;
    let mut high = false;
    for _ in 0..20000 {
        let secret = pick_secret();
        low = low || secret == 1;
        high = high || secret == 100;
    }
    assert!(low && high);
}

#[test]
fn judge_guess_compares_with_the_secret() {
    assert_eq!(judge_guess(50, "50\n"), Verdict::Win(50));
    assert_eq!(judge_guess(50, "10\n"), Verdict::TooSmall(10));
    assert_eq!(judge_guess(50, "99\n"), Verdict::TooBig(99));
    assert_eq!(judge_guess(50, "  49  \n"), Verdict::TooSmall(49));
    assert_eq!(judge_guess(50, "51"), Verdict::TooBig(51));
    assert_eq!(judge_guess(50, "4294967295"), Verdict::TooBig(u32::MAX));
    assert_eq!(judge_guess(1, "0"), Verdict::TooSmall(0));
}

#[test]
fn judge_guess_asks_again_on_a_line_without_a_number() {
    assert_eq!(judge_guess(50, "fifty\n"), Verdict::Invalid);
    assert_eq!(judge_guess(50, "\n"), Verdict::Invalid);
    assert_eq!(judge_guess(50, "-50\n"), Verdict::Invalid);
    assert_eq!(judge_guess(50, "4294967296\n"), Verdict::Invalid);
    assert_eq!(judge_guess(50, "5 0\n"), Verdict::Invalid);
}

#[test]
fn only_a_win_ends_the_game() {
    assert!(Verdict::Win(3).ends_game());
    assert!(!Verdict::TooSmall(3).ends_game());
    assert!(!Verdict::TooBig(3).ends_game());
    assert!(!Verdict::Invalid.ends_game());
}

#[test]
fn reply_lines_answer_the_player() {
    assert_eq!(Verdict::Invalid.reply_lines(), vec!["Please enter a valid number!"]);
    assert_eq!(Verdict::TooSmall(10).reply_lines(), vec!["You guessed: 10", "Too small!"]);
    assert_eq!(Verdict::TooBig(99).reply_lines(), vec!["You guessed: 99", "Too big!"]);
    assert_eq!(Verdict::Win(50).reply_lines(), vec!["You guessed: 50", "You win!"]);
    assert_eq!(guessed_line(0), "You guessed: 0");
}

#[test]
fn a_game_played_by_halving_ends_in_a_win() {
    let secret = pick_secret();
    let mut low: u32 = 1;
    let mut high: u32 = 100;
    let mut turns = 0;
    loop {
        turns += 1;
        assert!(turns <= 7);
        let guess = (low + high) / 2;
        let line = format!("{}\n", guess);
        match judge_guess(secret, &line) {
            Verdict::Win(n) => {
                assert_eq!(n, secret);
                break;
            }
            Verdict::TooSmall(n) => {
                assert_eq!(n, guess);
                low = guess + 1;
            }
            Verdict::TooBig(n) => {
                assert_eq!(n, guess);
                high = guess - 1;
            }
            Verdict::Invalid => panic!("a number was entered"),
        }
    }
}

#[test]
fn read_config_gives_the_number() {
    assert!(matches!(read_config(Ok(String::from("42\n"))), Ok(42)));
    assert!(matches!(read_config(Ok(String::from("-7"))), Ok(-7)));
    assert!(matches!(read_config(Ok(String::from(" 2147483647 "))), Ok(i32::MAX)));
}

#[test]
fn read_config_refuses_other_contents() {
    assert!(matches!(read_config(Ok(String::from("forty-two"))), Err(ConfigError::InvalidFormat)));
    assert!(matches!(read_config(Ok(String::new())), Err(ConfigError::InvalidFormat)));
    assert!(matches!(read_config(Ok(String::from("2147483648"))), Err(ConfigError::InvalidFormat)));
    assert!(matches!(read_config(Ok(String::from("1\n2\n"))), Err(ConfigError::InvalidFormat)));
}

#[test]
fn read_config_passes_a_failed_read_on() {
    let failure = std::io::Error::new(std::io::ErrorKind::NotFound, "config.txt");
    match read_config(Err(failure)) {
        Err(ConfigError::FileNotFound(inner)) => {
            assert_eq!(inner.kind(), std::io::ErrorKind::NotFound);
            assert_eq!(format!("{}", inner), "config.txt");
        }
        _ => panic!("the failure of the read was expected"),
    }
}

#[test]
fn blinker_starts_high() {
    let blinker = Blinker::new();
    assert_eq!(blinker, Blinker { level: Level::High, written: 0 });
    assert_eq!(Level::High.label(), "LED on");
    assert_eq!(Level::Low.label(), "LED off");
    assert_eq!(Level::High.toggled(), Level::Low);
    assert_eq!(Level::Low.toggled(), Level::High);
    assert_eq!(HOLD, 100_000);
}

#[test]
fn blinker_holds_a_level_then_toggles() {
    let mut blinker = Blinker::new();
    assert_eq!(blinker.step(), Action { announce: true, level: Level::High });
    for _ in 1..HOLD {
        assert_eq!(blinker.step(), Action { announce: false, level: Level::High });
    }
    assert_eq!(blinker, Blinker { level: Level::Low, written: 0 });
    assert_eq!(blinker.step(), Action { announce: true, level: Level::Low });
    for _ in 1..HOLD {
        assert_eq!(blinker.step(), Action { announce: false, level: Level::Low });
    }
    assert_eq!(blinker, Blinker { level: Level::High, written: 0 });
    assert_eq!(blinker.step(), Action { announce: true, level: Level::High });
    assert_eq!(blinker, Blinker { level: Level::High, written: 1 });
}
