use translator::address::ClapArgs;
use translator::error::TranslError;
use translator::fetch::{Event, Fetch, STATUS_OK};

fn requesting() -> Fetch {
    Fetch::start(&ClapArgs { word: String::from("word") })
}

#[test]
fn status_ok_is_200() {
    assert_eq!(STATUS_OK, 200);
}

#[test]
fn status_200_leads_on_to_reading() {
    assert_eq!(requesting().step(Event::Status(200)), Fetch::Reading);
}

#[test]
fn status_404_is_find_error() {
    assert_eq!(
        requesting().step(Event::Status(404)),
        Fetch::Done { outcome: Err(TranslError::FindError) }
    );
}

#[test]
fn every_status_but_200_is_find_error() {
    for code in [0u16, 100, 199, 201, 204, 301, 302, 400, 403, 404, 418, 500, 503, 599, 65535] {
        assert_eq!(
            requesting().step(Event::Status(code)),
            Fetch::Done { outcome: Err(TranslError::FindError) }
        );
    }
}

#[test]
fn body_after_200_is_handed_on_unchanged() {
    let body = String::from("<html><p class=\"tl\">hello</p>\n  trailing  ");
    let fetch = requesting().step(Event::Status(200)).step(Event::Body(body.clone()));
    assert_eq!(fetch, Fetch::Done { outcome: Ok(body) });
}

#[test]
fn empty_body_after_200_is_still_a_page() {
    let fetch = requesting().step(Event::Status(200)).step(Event::Body(String::new()));
    assert_eq!(fetch, Fetch::Done { outcome: Ok(String::new()) });
}

#[test]
fn transport_failure_while_requesting_is_req_error() {
    let fetch = requesting().step(Event::Failed(String::from("connection refused")));
    assert_eq!(
        fetch,
        Fetch::Done {
            outcome: Err(TranslError::ReqError { message: String::from("connection refused") })
        }
    );
}

#[test]
fn transport_failure_while_reading_is_req_error() {
    let fetch = requesting()
        .step(Event::Status(200))
        .step(Event::Failed(String::from("body cut short")));
    assert_eq!(
        fetch,
        Fetch::Done {
            outcome: Err(TranslError::ReqError { message: String::from("body cut short") })
        }
    );
}

#[test]
fn body_before_any_status_changes_nothing() {
    let fetch = requesting().step(Event::Body(String::from("<p>")));
    assert_eq!(fetch, requesting());
}

#[test]
fn second_status_while_reading_changes_nothing() {
    let fetch = requesting().step(Event::Status(200)).step(Event::Status(404));
    assert_eq!(fetch, Fetch::Reading);
}

#[test]
fn finished_fetch_ignores_further_events() {
    let done = requesting().step(Event::Status(404));
    let after = done
        .step(Event::Status(200))
        .step(Event::Body(String::from("late")))
        .step(Event::Failed(String::from("late")));
    assert_eq!(after, Fetch::Done { outcome: Err(TranslError::FindError) });

    let page = requesting().step(Event::Status(200)).step(Event::Body(String::from("page")));
    let after = page.step(Event::Failed(String::from("late"))).step(Event::Status(500));
    assert_eq!(after, Fetch::Done { outcome: Ok(String::from("page")) });
}
