use json_poller::{check_decoded, check_sent, check_status, is_success_status, FetchError};

const SLIDESHOW: &str = r#"{
  "slideshow": {
    "author": "Yours Truly",
    "date": "date of publication",
    "slides": [
      { "title": "Wake up to WonderWidgets!", "type": "all" },
      { "items": ["Why <em>WonderWidgets</em> are great", "Who <em>buys</em> WonderWidgets"],
        "title": "Overview", "type": "all" }
    ],
    "title": "Sample Slide Show"
  }
}"#;

const HTML: &str = "<!DOCTYPE html>\n<html><head></head><body><h1>Herman Melville - Moby-Dick</h1></body></html>";

#[test]
fn status_404_is_a_status_failure() {
    assert_eq!(check_status(404), Err(FetchError::Status(404)));
}

#[test]
fn success_is_exactly_the_2xx_range() {
    assert!(!is_success_status(199));
    assert!(is_success_status(200));
    assert!(is_success_status(204));
    assert!(is_success_status(299));
    assert!(!is_success_status(300));
    assert!(!is_success_status(0));
    assert!(!is_success_status(u16::MAX));
    assert_eq!(check_status(200), Ok(()));
    assert_eq!(check_status(299), Ok(()));
    assert_eq!(check_status(301), Err(FetchError::Status(301)));
    assert_eq!(check_status(500), Err(FetchError::Status(500)));
    assert_eq!(check_status(199), Err(FetchError::Status(199)));
}

#[test]
fn unsent_request_is_a_transport_failure() {
    let sent: Result<u16, &str> = Err("connection refused");
    assert_eq!(check_sent(sent), Err(FetchError::Transport));
    let sent: Result<u16, &str> = Ok(404);
    assert_eq!(check_sent(sent), Ok(404));
}

#[test]
fn html_body_is_a_decode_failure() {
    let decoded = serde_json::from_str::<serde_json::Value>(HTML);
    assert!(decoded.is_err());
    assert_eq!(check_decoded(decoded), Err(FetchError::Decode));
}

#[test]
fn well_formed_document_is_returned_as_decoded() {
    let decoded = serde_json::from_str::<serde_json::Value>(SLIDESHOW);
    let value = check_decoded(decoded).unwrap();
    let show = &value["slideshow"];
    assert_eq!(show["author"], "Yours Truly");
    assert_eq!(show["title"], "Sample Slide Show");
    assert_eq!(show["date"], "date of publication");
    assert_eq!(show["slides"].as_array().unwrap().len(), 2);
    assert_eq!(show["slides"][1]["title"], "Overview");
    assert_eq!(show["slides"][1]["type"], "all");
}
