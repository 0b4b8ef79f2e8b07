use holler::speech::{
    batches, clean, spoken_batches, status_of_phase, Reading, SpeechController, SpeechStatus, MAX_BATCH_CHARS,
    PREFETCH_AHEAD,
};
use holler::tts::{SpeakPhase, TtsError};

#[test]
fn phases_show_as_statuses() {
    assert_eq!(status_of_phase(SpeakPhase::Synthesizing), SpeechStatus::Generating);
    assert_eq!(status_of_phase(SpeakPhase::Playing), SpeechStatus::Speaking);
}

#[test]
fn only_the_newest_request_is_spoken() {
    let mut c = SpeechController::new();
    let (first, stop_voice) = c.speak();
    assert!(!stop_voice);
    let (second, _) = c.speak();
    assert!(!c.begin(first));
    assert!(c.begin(second));
    assert!(c.is_current(second));
    // A third request interrupts the second, whose end is not reported.
    let (third, stop_voice) = c.speak();
    assert!(stop_voice);
    assert_eq!(c.end(second, Ok(())), None);
    assert!(c.begin(third));
    assert_eq!(c.end(third, Ok(())), Some(SpeechStatus::Finished));
}

#[test]
fn one_text_is_read_at_a_time() {
    let mut c = SpeechController::new();
    let (first, _) = c.speak();
    assert!(!c.interrupt());
    assert!(c.begin(first));
    let (second, _) = c.speak();
    let (third, _) = c.speak();
    assert!(c.interrupt());
    assert_eq!(c.end(first, Ok(())), None);
    // The worker finds nothing being spoken when it takes the next one.
    assert!(!c.interrupt());
    assert!(!c.begin(second));
    assert!(!c.interrupt());
    assert!(c.begin(third));
    assert_eq!(c.end(third, Ok(())), Some(SpeechStatus::Finished));
}

#[test]
fn a_stop_silences_earlier_requests_for_good() {
    let mut c = SpeechController::new();
    let (first, _) = c.speak();
    assert!(c.begin(first));
    let (second, _) = c.speak();
    assert!(c.stop());
    assert_eq!(c.end(first, Ok(())), None);
    assert!(!c.begin(second));
    let (third, _) = c.speak();
    assert!(!c.begin(first) && !c.begin(second));
    assert!(c.begin(third));
    assert_eq!(c.end(third, Ok(())), Some(SpeechStatus::Finished));
}

#[test]
fn a_stop_drops_what_is_queued() {
    let mut c = SpeechController::new();
    let (first, _) = c.speak();
    assert!(!c.stop());
    assert!(!c.begin(first));
    let (second, _) = c.speak();
    assert!(c.begin(second));
    assert!(c.stop());
    assert_eq!(c.end(second, Err(TtsError::Http("cut".to_string()))), None);
}

#[test]
fn failures_are_reported_in_words() {
    let mut c = SpeechController::new();
    let (n, _) = c.speak();
    assert!(c.begin(n));
    assert_eq!(
        c.end(n, Err(TtsError::Http("dns".to_string()))),
        Some(SpeechStatus::Error("request failed: dns".to_string()))
    );
    assert!(!c.interrupt());
    assert!(c.has_numbers_left());
}

#[test]
fn cleaning_collapses_white_space() {
    assert_eq!(clean("  a \n\n b\tc  "), "a b c");
    assert_eq!(clean(" \n "), "");
    assert_eq!(clean(&clean("x  y")), clean("x  y"));
}

#[test]
fn each_sentence_is_a_batch() {
    assert_eq!(spoken_batches("Hello  there. Fine v1.2"), vec!["Hello there.", "Fine v1.2"]);
    assert!(spoken_batches("   ").is_empty());
}

#[test]
fn long_texts_are_split_without_loss() {
    let text: String = (0..200).map(|i| format!("Word{i} is here. ")).collect();
    let list = spoken_batches(&text);
    assert!(list.len() > 1);
    assert!(list.iter().all(|b| !b.is_empty() && b.chars().count() <= MAX_BATCH_CHARS));
    let ink = |s: &str| s.chars().filter(|c| !c.is_whitespace()).collect::<String>();
    assert_eq!(ink(&list.concat()), ink(&text));
}

#[test]
fn an_unbroken_text_is_cut_at_the_limit() {
    let text: String = std::iter::repeat('x').take(MAX_BATCH_CHARS + 5).collect();
    let sizes: Vec<usize> = batches(&text).iter().map(|b| b.chars().count()).collect();
    assert_eq!(sizes, vec![MAX_BATCH_CHARS, 5]);
}

#[test]
fn fetching_stays_close_to_playing() {
    let mut r = Reading::new(4);
    assert_eq!(PREFETCH_AHEAD, 2);
    assert_eq!(r.play_next(true), None);
    assert_eq!(r.fetch_next(true), Some(0));
    assert_eq!(r.fetch_next(true), Some(1));
    assert_eq!(r.fetch_next(true), None);
    assert_eq!(r.play_next(true), Some(0));
    assert_eq!(r.fetch_next(true), Some(2));
    // Once superseded, nothing more is fetched or played.
    assert_eq!(r.fetch_next(false), None);
    assert_eq!(r.play_next(false), None);
    assert_eq!(r.play_next(true), Some(1));
    assert_eq!(r.play_next(true), Some(2));
    assert_eq!(r.fetch_next(true), Some(3));
    assert!(!r.is_over());
    assert_eq!(r.play_next(true), Some(3));
    assert!(r.is_over());
}
