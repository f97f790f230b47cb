use translator::address::ClapArgs;
use translator::error::TranslError;
use translator::fetch::{Event, Fetch};
use translator::lookup::{scrape_fetched, translate};
use translator::present::Line;

fn plain(lines: &[Line]) -> Vec<String> {
    lines.iter().map(|line| line.plain()).collect()
}

fn page(entries: &[&str]) -> String {
    let mut markup = String::from("<!DOCTYPE html><html><body><h1>word</h1><div class=\"translations\">");
    for entry in entries {
        markup.push_str("<p class=\"tl\">");
        markup.push_str(entry);
        markup.push_str("</p>");
    }
    markup.push_str("</div><p>footer</p></body></html>");
    markup
}

/// Plays the remote side of a lookup: answers the request with `status` and,
/// where the fetch goes on to read, with `body`.
fn lookup(word: &str, status: u16, body: &str) -> Vec<String> {
    let fetch = Fetch::start(&ClapArgs { word: String::from(word) });
    match &fetch {
        Fetch::Requesting { address } => {
            assert_eq!(*address, format!("https://en.openrussian.org/ru/{}", word))
        }
        other => panic!("a new fetch must request: {:?}", other),
    }
    let mut fetch = fetch.step(Event::Status(status));
    if fetch == Fetch::Reading {
        fetch = fetch.step(Event::Body(String::from(body)));
    }
    match fetch {
        Fetch::Done { outcome } => plain(&translate(outcome)),
        other => panic!("the fetch must be over: {:?}", other),
    }
}

#[test]
fn lookup_with_two_entries_prints_translation_and_alternative() {
    assert_eq!(
        lookup("привет", 200, &page(&["hello", "hi"])),
        ["Translation: hello", "Alternative(s): hi"]
    );
}

#[test]
fn lookup_with_one_entry_prints_no_alternatives_note() {
    assert_eq!(
        lookup("слово", 200, &page(&["word"])),
        ["Translation: word", "No alternative translations available."]
    );
}

#[test]
fn lookup_answered_404_prints_not_found() {
    assert_eq!(lookup("zzznotaword", 404, &page(&["never read"])), ["Could not find the word."]);
}

#[test]
fn lookup_without_entries_prints_not_found() {
    assert_eq!(lookup("existsbutunmapped", 200, &page(&[])), ["Could not find the word."]);
}

#[test]
fn lookup_with_many_entries_joins_alternatives() {
    assert_eq!(
        lookup("идти", 200, &page(&["to go", "to walk", "to <b>run</b>"])),
        ["Translation: to go", "Alternative(s): to walk, to run"]
    );
}

#[test]
fn lookup_that_cannot_reach_the_server_prints_not_found() {
    let fetch = Fetch::start(&ClapArgs { word: String::from("word") })
        .step(Event::Failed(String::from("no route to host")));
    match fetch {
        Fetch::Done { outcome } => {
            assert_eq!(plain(&translate(outcome)), ["Could not find the word."])
        }
        other => panic!("the fetch must be over: {:?}", other),
    }
}

#[test]
fn scrape_fetched_scrapes_the_page() {
    assert_eq!(
        scrape_fetched(Ok(page(&["a", "b"]))),
        Ok(vec![String::from("a"), String::from("b")])
    );
}

#[test]
fn scrape_fetched_hands_a_failure_on_unchanged() {
    assert_eq!(scrape_fetched(Err(TranslError::FindError)), Err(TranslError::FindError));
    let failure = TranslError::ReqError { message: String::from("tls handshake") };
    assert_eq!(
        scrape_fetched(Err(failure)),
        Err(TranslError::ReqError { message: String::from("tls handshake") })
    );
}
