use bp_util::sync::sync_report;
use bp_util::Notice;

#[test]
fn fixed_notices_have_their_texts() {
    assert_eq!(Notice::Loading.text(), "Loading descriptor");
    assert_eq!(Notice::FromArgument.text(), " from command-line argument ... ");
    assert_eq!(Notice::FromDirectory.text(), " from specified wallet directory ... ");
    assert_eq!(Notice::Loaded.text(), "success\n");
    assert_eq!(Notice::Syncing.text(), "Syncing ...");
    assert_eq!(Notice::SyncComplete.text(), " success\n");
    assert_eq!(Notice::SyncPartial.text(), " partial, some requests has failed:\n");
}

#[test]
fn wallet_notice_names_the_wallet() {
    assert_eq!(Notice::FromWallet("alice".to_string()).text(), " from wallet alice ... ");
    assert_eq!(Notice::FromWallet(String::new()).text(), " from wallet  ... ");
}

#[test]
fn failure_notice_is_a_line_with_the_message() {
    assert_eq!(Notice::RequestFailed("timed out".to_string()).text(), "- timed out\n");
    assert_eq!(Notice::RequestFailed(String::new()).text(), "- \n");
}

#[test]
fn report_without_failures_is_plain_success() {
    assert_eq!(sync_report(&Vec::new()), vec![Notice::SyncComplete]);
}

#[test]
fn report_with_one_failure_has_one_line() {
    let errors = vec!["HTTP response error 500".to_string()];
    assert_eq!(
        sync_report(&errors),
        vec![
            Notice::SyncPartial,
            Notice::RequestFailed("HTTP response error 500".to_string()),
        ]
    );
}

#[test]
fn report_keeps_the_order_of_the_failures() {
    let errors = vec!["first".to_string(), "second".to_string(), "third".to_string()];
    let notices = sync_report(&errors);
    assert_eq!(notices.len(), 4);
    assert_eq!(notices[0], Notice::SyncPartial);
    assert_eq!(notices[1], Notice::RequestFailed("first".to_string()));
    assert_eq!(notices[2], Notice::RequestFailed("second".to_string()));
    assert_eq!(notices[3], Notice::RequestFailed("third".to_string()));
}

#[test]
fn report_repeats_equal_messages() {
    let errors = vec!["timed out".to_string(), "timed out".to_string()];
    let text: String = sync_report(&errors).iter().map(Notice::text).collect();
    assert_eq!(text, " partial, some requests has failed:\n- timed out\n- timed out\n");
}
