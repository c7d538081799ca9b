use cpdb_rs::backend::Backend;
use cpdb_rs::error::CpdbError;
use cpdb_rs::printer::{mentions_pdf, Lookup, Margins};
use cpdb_rs::{Frontend, Media, Options, PrintJob, Printer, Settings};

const FRONTEND: usize = 0x1000;
const SETTINGS: usize = 0x2000;
const PRINTER: usize = 0x4000;
const JOB: usize = 0x5000;

fn backend_error(text: &str) -> CpdbError {
    CpdbError::BackendError(text.to_string())
}

fn released_printer() -> Printer {
    let mut printer = Printer::from_raw(PRINTER).unwrap();
    printer.release();
    printer
}

#[test]
fn null_pointer_never_becomes_a_handle() {
    assert_eq!(Printer::from_raw(0), Err(CpdbError::NullPointer));
    assert_eq!(Media::from_raw(0), Err(CpdbError::NullPointer));
    assert_eq!(Settings::new(0), Err(CpdbError::NullPointer));
    assert_eq!(Settings::read_from_disk(0), Err(CpdbError::NullPointer));
    assert_eq!(Options::new(0), Err(CpdbError::NullPointer));
    assert_eq!(Frontend::new(0), Err(CpdbError::NullPointer));
    assert_eq!(Frontend::start_listing(0), Err(CpdbError::NullPointer));
    assert_eq!(Printer::load_from_file("saved.bin", 0), Err(CpdbError::NullPointer));
    assert_eq!(PrintJob::new("Office", &[], "Title", 0), Err(CpdbError::NullPointer));
    let settings = Settings::new(SETTINGS).unwrap();
    assert_eq!(settings.copy(0), Err(CpdbError::NullPointer));
    let printer = Printer::from_raw(PRINTER).unwrap();
    assert_eq!(printer.get_all_options(0x7000, 0), Err(CpdbError::NullPointer));
    let frontend = Frontend::new(FRONTEND).unwrap();
    assert_eq!(frontend.get_printer("Office", 0), Err(CpdbError::InvalidPrinter));
}

#[test]
fn live_handles_keep_their_address() {
    assert_eq!(Printer::from_raw(PRINTER).unwrap().as_raw(), PRINTER);
    assert_eq!(Media::from_raw(0x6000).unwrap().as_raw(), 0x6000);
    assert_eq!(Frontend::start_listing(FRONTEND).unwrap().as_raw(), FRONTEND);
    assert_eq!(Printer::load_from_file("saved.bin", PRINTER).unwrap().as_raw(), PRINTER);
    let frontend = Frontend::new(FRONTEND).unwrap();
    assert_eq!(frontend.get_printer("Office", PRINTER).unwrap().as_raw(), PRINTER);
}

#[test]
fn owning_handles_are_handed_out_once() {
    let mut media = Media::from_raw(0x6000).unwrap();
    assert_eq!(media.release(), Some(0x6000));
    assert_eq!(media.release(), None);
    assert_eq!(media.as_raw(), 0);

    let original = Settings::new(SETTINGS).unwrap();
    let mut copies = vec![
        original.copy(SETTINGS + 8).unwrap(),
        original.copy(SETTINGS + 16).unwrap(),
        original.copy(SETTINGS + 24).unwrap(),
    ];
    let mut handed_out = Vec::new();
    for _ in 0..2 {
        for copy in copies.iter_mut() {
            if let Some(raw) = copy.release() {
                handed_out.push(raw);
            }
        }
    }
    assert_eq!(handed_out, vec![SETTINGS + 8, SETTINGS + 16, SETTINGS + 24]);
    assert_eq!(original.as_raw(), SETTINGS);
}

#[test]
fn unset_field_is_empty_not_an_error() {
    let printer = Printer::from_raw(PRINTER).unwrap();
    assert_eq!(printer.location(None), Ok(String::new()));
    assert_eq!(printer.id(Some(b"office-1")), Ok("office-1".to_string()));
    assert_eq!(printer.name(Some(b"Office")), Ok("Office".to_string()));
    assert_eq!(printer.description(Some(b"2nd floor")), Ok("2nd floor".to_string()));
    assert_eq!(printer.make_and_model(Some(b"HP")), Ok("HP".to_string()));
    assert_eq!(printer.current_state_field(Some(b"idle")), Ok("idle".to_string()));
    assert_eq!(printer.backend_name(Some(b"CUPS")), Ok("CUPS".to_string()));
    assert_eq!(printer.name(Some(&[0xff])), Err(CpdbError::Utf8Error(0, Some(1))));
    assert_eq!(
        printer.get_string_field(Some(b"x"), "custom"),
        Ok("x".to_string())
    );
}

#[test]
fn released_printer_fails_fast() {
    let printer = released_printer();
    assert_eq!(printer.as_raw(), 0);
    assert_eq!(
        printer.name(Some(b"Office")),
        Err(backend_error("Printer object pointer is null when accessing name"))
    );
    assert_eq!(
        printer.description(None),
        Err(backend_error("Printer object pointer is null when accessing info"))
    );
    assert_eq!(
        printer.get_updated_state(Some(b"idle")),
        Err(backend_error("Printer object pointer is null for get_updated_state"))
    );
    assert_eq!(
        printer.is_accepting_jobs(1),
        Err(backend_error("Printer object pointer is null for is_accepting_jobs"))
    );
    assert_eq!(
        printer.print_single_file("a\0", Some(b"1")),
        Err(backend_error("Printer object pointer is null for print_single_file"))
    );
    assert_eq!(
        printer.submit_job("file", &[], "title", Some(b"1")),
        Err(backend_error("Printer object pointer is null for submit_job"))
    );
    assert_eq!(
        printer.try_clone(),
        Err(backend_error("Cannot clone null printer object"))
    );
    assert_eq!(
        printer.get_all_options(1, 2),
        Err(backend_error("Printer object pointer is null for get_all_options"))
    );
    assert_eq!(
        printer.get_option("copies", &Lookup::Unset),
        Err(backend_error("Printer object pointer is null for get_option"))
    );
    assert_eq!(
        printer.get_default("copies", Some(b"1")),
        Err(backend_error("Printer object pointer is null for get_default"))
    );
    assert_eq!(
        printer.get_current("copies", Some(b"1")),
        Err(backend_error("Printer object pointer is null for get_current"))
    );
    assert_eq!(
        printer.get_media("A4", &Lookup::Unset),
        Err(backend_error("Printer object pointer is null for get_media"))
    );
    assert_eq!(
        printer.get_media_size("A4", 0, 1, 2),
        Err(backend_error("Printer object pointer is null for get_media_size"))
    );
    assert_eq!(
        printer.get_media_margins("A4", 0, None),
        Err(backend_error("Printer object pointer is null for get_media_margins"))
    );
    let frontend = Frontend::new(FRONTEND).unwrap();
    assert_eq!(
        printer.save_to_file("out", &frontend),
        Err(backend_error("Printer object pointer is null for save_to_file"))
    );
    assert_eq!(
        printer.check_live("anything"),
        Err(backend_error("Printer object pointer is null for anything"))
    );
    assert_eq!(printer.accepts_pdf(Some(b"PDF")), Ok(false));
}

#[test]
fn live_queries_fail_on_a_null_reply() {
    let printer = Printer::from_raw(PRINTER).unwrap();
    assert_eq!(printer.check_live("anything"), Ok(()));
    assert_eq!(printer.get_updated_state(Some(b"idle")), Ok("idle".to_string()));
    assert_eq!(printer.get_updated_state(None), Err(CpdbError::NullPointer));
    assert_eq!(printer.is_accepting_jobs(0), Ok(false));
    assert_eq!(printer.is_accepting_jobs(1), Ok(true));
    assert_eq!(printer.is_accepting_jobs(-1), Ok(true));
    assert_eq!(printer.print_single_file("doc.pdf", Some(b"42")), Ok("42".to_string()));
    assert_eq!(printer.print_single_file("doc.pdf", None), Err(CpdbError::NullPointer));
    assert_eq!(
        printer.print_single_file("doc\0.pdf", Some(b"42")),
        Err(CpdbError::NulError(3))
    );
    assert_eq!(printer.get_default("media", Some(b"A4")), Ok("A4".to_string()));
    assert_eq!(printer.get_default("media", None), Err(CpdbError::NullPointer));
    assert_eq!(printer.get_default("me\0dia", Some(b"A4")), Err(CpdbError::NulError(2)));
    assert_eq!(printer.get_current("media", Some(b"A5")), Ok("A5".to_string()));
    assert_eq!(
        printer.get_current("media", Some(&[0x80])),
        Err(CpdbError::Utf8Error(0, Some(1)))
    );
    assert_eq!(printer.get_current("\0", None), Err(CpdbError::NulError(0)));
}

#[test]
fn pdf_devices_are_recognised_in_any_case() {
    let printer = Printer::from_raw(PRINTER).unwrap();
    assert_eq!(printer.accepts_pdf(Some(b"CUPS-PDF Printer")), Ok(true));
    assert_eq!(printer.accepts_pdf(Some(b"Generic pdf writer")), Ok(true));
    assert_eq!(printer.accepts_pdf(Some(b"HP LaserJet")), Ok(false));
    assert_eq!(printer.accepts_pdf(Some(b"pd f")), Ok(false));
    assert_eq!(printer.accepts_pdf(None), Ok(false));
    assert_eq!(printer.accepts_pdf(Some(&[0xff])), Ok(false));
    assert!(mentions_pdf("a pdf device"));
    assert!(mentions_pdf("pdf"));
    assert!(!mentions_pdf("PDF"));
    assert!(!mentions_pdf("pd"));
    assert!(!mentions_pdf(""));
}

#[test]
fn job_submission_needs_a_job_id() {
    let printer = Printer::from_raw(PRINTER).unwrap();
    assert_eq!(
        printer.submit_job("doc.pdf", &[("copies", "2")], "Report", Some(b"job-9")),
        Ok(())
    );
    assert_eq!(
        printer.submit_job("doc.pdf", &[], "Report", None),
        Err(backend_error("Job submission failed - no job ID returned"))
    );
    assert_eq!(
        printer.submit_job("doc\0", &[("a\0", "b")], "Rep\0ort", None),
        Err(CpdbError::NulError(3))
    );
    assert_eq!(
        printer.submit_job("doc", &[("a\0", "b")], "Rep\0ort", None),
        Err(CpdbError::NulError(3))
    );
    assert_eq!(
        printer.submit_job("doc", &[("a", "\0b")], "Report", Some(b"1")),
        Err(CpdbError::NulError(0))
    );
}

#[test]
fn clone_names_the_same_native_object() {
    let printer = Printer::from_raw(PRINTER).unwrap();
    let alias = printer.try_clone().unwrap();
    assert_eq!(alias.as_raw(), PRINTER);
    assert_eq!(alias, printer);
}

#[test]
fn option_sets_of_a_printer() {
    let printer = Printer::from_raw(PRINTER).unwrap();
    assert_eq!(printer.get_all_options(0, 0), Ok(Vec::new()));
    assert_eq!(printer.get_all_options(0, 0x3000), Ok(Vec::new()));
    let sets = printer.get_all_options(0x7000, 0x3000).unwrap();
    assert_eq!(sets.len(), 1);
    assert_eq!(sets[0].as_raw(), 0x3000);
    assert_eq!(printer.get_all_options(0x7000, 0), Err(CpdbError::NullPointer));
    assert!(printer.wants_option_set(0x7000));
    assert!(!printer.wants_option_set(0));
    assert!(!released_printer().wants_option_set(0x7000));
}

#[test]
fn option_lookup() {
    let printer = Printer::from_raw(PRINTER).unwrap();
    assert_eq!(
        printer.get_option("copies", &Lookup::Text(b"1".to_vec())),
        Ok("1".to_string())
    );
    assert_eq!(printer.get_option("copies", &Lookup::Unset), Ok("NA".to_string()));
    assert_eq!(
        printer.get_option("duplex", &Lookup::Missing),
        Err(backend_error("Option 'duplex' not found"))
    );
    assert_eq!(
        printer.get_option("du\0plex", &Lookup::Missing),
        Err(CpdbError::NulError(2))
    );
    assert_eq!(
        printer.get_option("copies", &Lookup::Text(vec![0xc0])),
        Err(CpdbError::Utf8Error(0, Some(1)))
    );
}

#[test]
fn unknown_media_is_a_typed_error() {
    let printer = Printer::from_raw(PRINTER).unwrap();
    assert_eq!(
        printer.get_media("unknown-size-name", &Lookup::Missing),
        Err(backend_error("Media 'unknown-size-name' not found"))
    );
    assert_eq!(
        printer.get_media("iso_a4_210x297mm", &Lookup::Text(b"iso_a4_210x297mm".to_vec())),
        Ok("iso_a4_210x297mm".to_string())
    );
    assert_eq!(printer.get_media("A4", &Lookup::Unset), Ok("Unknown".to_string()));
    assert_eq!(
        printer.get_media_size("unknown-size-name", 1, 0, 0),
        Err(backend_error("Failed to get media size for 'unknown-size-name'"))
    );
    assert_eq!(
        printer.get_media_margins("unknown-size-name", 1, None),
        Err(backend_error("Failed to get media margins for 'unknown-size-name'"))
    );
}

#[test]
fn media_size_and_margins() {
    let printer = Printer::from_raw(PRINTER).unwrap();
    assert_eq!(printer.get_media_size("A4", 0, 21000, 29700), Ok((21000, 29700)));
    assert_eq!(
        printer.get_media_size("A\04", 0, 21000, 29700),
        Err(CpdbError::NulError(1))
    );
    let margins = Margins { top: 10, bottom: 20, left: -5, right: 0 };
    assert_eq!(
        printer.get_media_margins("A4", 0, Some(margins)),
        Ok("top: 10, bottom: 20, left: -5, right: 0".to_string())
    );
    assert_eq!(
        printer.get_media_margins("A4", 0, None),
        Err(backend_error("Failed to get media margins for 'A4'"))
    );
    assert_eq!(
        printer.get_media_margins("A4", 3, Some(margins)),
        Err(backend_error("Failed to get media margins for 'A4'"))
    );
}

#[test]
fn printer_persistence_decisions() {
    let printer = Printer::from_raw(PRINTER).unwrap();
    let frontend = Frontend::new(FRONTEND).unwrap();
    assert_eq!(printer.save_to_file("printer.bin", &frontend), Ok(()));
    assert_eq!(
        printer.save_to_file("printer\0.bin", &frontend),
        Err(CpdbError::NulError(7))
    );
    assert_eq!(
        Printer::load_from_file("printer\0.bin", PRINTER),
        Err(CpdbError::NulError(7))
    );
    assert_eq!(Printer::load_from_file("\0", 0), Err(CpdbError::NulError(0)));
    assert_eq!(
        printer.save_request("printer.bin", &frontend),
        Ok(b"printer.bin\0".to_vec())
    );
}

#[test]
fn saving_through_a_released_frontend_is_refused() {
    let printer = Printer::from_raw(PRINTER).unwrap();
    let mut frontend = Frontend::new(FRONTEND).unwrap();
    assert_eq!(frontend.release(), Some(FRONTEND));
    let refused = CpdbError::FrontendError(
        "Frontend raw pointer is null for save_to_file".to_string(),
    );
    assert_eq!(printer.save_to_file("printer.bin", &frontend), Err(refused.clone()));
    assert_eq!(printer.save_to_file("printer\0.bin", &frontend), Err(refused.clone()));
    assert_eq!(printer.save_request("printer.bin", &frontend), Err(refused));
    assert_eq!(
        released_printer().save_to_file("printer.bin", &frontend),
        Err(backend_error("Printer object pointer is null for save_to_file"))
    );
}

#[test]
fn requests_hand_out_what_the_native_side_is_to_read() {
    let printer = Printer::from_raw(PRINTER).unwrap();
    assert_eq!(printer.request("get_default", "media"), Ok(b"media\0".to_vec()));
    assert_eq!(printer.request("get_default", "me\0dia"), Err(CpdbError::NulError(2)));
    assert_eq!(
        released_printer().request("get_default", "media"),
        Err(backend_error("Printer object pointer is null for get_default"))
    );
    let (path, title, records) = printer
        .submit_request("doc.pdf", &[("copies", "2")], "Report")
        .unwrap();
    assert_eq!(path, b"doc.pdf\0".to_vec());
    assert_eq!(title, b"Report\0".to_vec());
    assert_eq!(records.len(), 1);
    assert_eq!(records[0].option_name, b"copies\0".to_vec());
    assert_eq!(records[0].default_value, b"2\0".to_vec());
    assert_eq!(
        printer.submit_request("doc.pdf", &[("copies", "2\0")], "Re\0port"),
        Err(CpdbError::NulError(2))
    );
    assert_eq!(
        released_printer().submit_request("doc.pdf", &[], "Report"),
        Err(backend_error("Printer object pointer is null for submit_job"))
    );

    let frontend = Frontend::new(FRONTEND).unwrap();
    assert_eq!(frontend.check_live("for anything"), Ok(()));
    assert_eq!(frontend.lookup_request("Office"), Ok(b"Office\0".to_vec()));
    assert_eq!(frontend.lookup_request("\0"), Err(CpdbError::NulError(0)));

    let (name, records, title) = PrintJob::new_request("Office", &[("a", "b")], "T").unwrap();
    assert_eq!(name, b"Office\0".to_vec());
    assert_eq!(records.len(), 1);
    assert_eq!(title, b"T\0".to_vec());
    let mut job = PrintJob::new("Office", &[], "T", JOB).unwrap();
    assert_eq!(job.check_submit("doc.pdf"), Ok(b"doc.pdf\0".to_vec()));
    assert_eq!(job.check_submit("doc\0"), Err(CpdbError::NulError(3)));
    assert_eq!(job.submit_with_file("doc.pdf", Ok(4)), Ok(()));
    assert_eq!(
        job.check_submit("doc.pdf"),
        Err(CpdbError::JobFailed("Print job was already submitted".to_string()))
    );
    assert_eq!(job.cancel(), Ok(Some(JOB)));
    assert_eq!(job.check_submit("doc.pdf"), Err(CpdbError::NullPointer));
}

#[test]
fn frontend_operations_need_a_live_frontend() {
    let mut frontend = Frontend::new(FRONTEND).unwrap();
    assert_eq!(frontend.connect_to_dbus(), Ok(()));
    assert_eq!(frontend.disconnect_from_dbus(), Ok(()));
    assert_eq!(frontend.stop_listing_printers(), Ok(()));
    assert_eq!(frontend.get_printers(&[]), Ok(Vec::new()));
    assert_eq!(frontend.get_printers(&[0, 0]), Ok(Vec::new()));
    assert_eq!(frontend.get_printer("Off\0ice", PRINTER), Err(CpdbError::NulError(3)));
    assert_eq!(frontend.release(), Some(FRONTEND));
    let gone = |situation: &str| {
        CpdbError::FrontendError(format!("Frontend raw pointer is null {}", situation))
    };
    assert_eq!(frontend.connect_to_dbus(), Err(gone("before calling cpdbConnectToDBus")));
    assert_eq!(
        frontend.disconnect_from_dbus(),
        Err(gone("before calling cpdbDisconnectFromDBus"))
    );
    assert_eq!(
        frontend.stop_listing_printers(),
        Err(gone("before calling cpdbStopListingPrinters"))
    );
    assert_eq!(frontend.get_printers(&[PRINTER]), Err(gone("for get_printers")));
    assert_eq!(frontend.get_printer("Office", PRINTER), Err(gone("for get_printer")));
}

#[test]
fn settings_decisions() {
    let mut settings = Settings::new(SETTINGS).unwrap();
    assert_eq!(settings.add_setting("copies", "2"), Ok(()));
    assert_eq!(settings.add_setting("co\0pies", "\0"), Err(CpdbError::NulError(2)));
    assert_eq!(settings.add_setting("copies", "2\0"), Err(CpdbError::NulError(1)));
    assert_eq!(settings.clear_setting("copies"), Ok(()));
    assert_eq!(settings.clear_setting("\0"), Err(CpdbError::NulError(0)));
    assert_eq!(settings.serialize_to_gvariant(0x8000), Ok(0x8000));
    assert_eq!(
        settings.serialize_to_gvariant(0),
        Err(backend_error("Failed to serialize settings"))
    );
    assert_eq!(settings.copy(0), Err(CpdbError::NullPointer));
    assert_eq!(settings.check_live(), Ok(()));
    assert_eq!(
        settings.add_request("copies", "2"),
        Ok((b"copies\0".to_vec(), b"2\0".to_vec()))
    );
    assert_eq!(settings.add_request("copies", "2\0"), Err(CpdbError::NulError(1)));
    assert_eq!(settings.clear_request("copies"), Ok(b"copies\0".to_vec()));
    assert_eq!(settings.clear_request("co\0pies"), Err(CpdbError::NulError(2)));
    assert_eq!(settings.as_raw(), SETTINGS);

    assert_eq!(settings.release(), Some(SETTINGS));
    assert_eq!(settings.add_setting("copies", "2"), Err(CpdbError::NullPointer));
    assert_eq!(settings.add_setting("co\0pies", "2"), Err(CpdbError::NullPointer));
    assert_eq!(settings.clear_setting("copies"), Err(CpdbError::NullPointer));
    assert_eq!(settings.copy(SETTINGS + 8), Err(CpdbError::NullPointer));
    assert_eq!(settings.serialize_to_gvariant(0x8000), Err(CpdbError::NullPointer));
    assert_eq!(settings.save_to_disk(), Err(CpdbError::NullPointer));
    assert_eq!(settings.check_live(), Err(CpdbError::NullPointer));
    assert_eq!(settings.add_request("copies", "2"), Err(CpdbError::NullPointer));
    assert_eq!(settings.clear_request("copies"), Err(CpdbError::NullPointer));
}

#[test]
fn backend_is_unsupported() {
    assert_eq!(Backend::new("CUPS"), Err(CpdbError::Unsupported));
    let backend = Backend {};
    assert_eq!(
        backend.submit_job("Office", "doc.pdf", &[("copies", "1")], "Report"),
        Err(CpdbError::Unsupported)
    );
}

#[test]
fn cancelling_twice_succeeds_and_frees_once() {
    let mut job = PrintJob::new("Office", &[("copies", "1")], "Report", JOB).unwrap();
    assert_eq!(job.as_raw(), JOB);
    assert_eq!(job.id(), None);
    assert_eq!(job.submit_with_file("doc.pdf", Ok(31)), Ok(()));
    assert_eq!(job.id(), Some(31));
    assert_eq!(job.cancel(), Ok(Some(JOB)));
    assert_eq!(job.id(), None);
    assert_eq!(job.cancel(), Ok(None));
    assert_eq!(job.cancel(), Ok(None));
    assert_eq!(job.release(), None);
    assert_eq!(job.as_raw(), 0);
}

#[test]
fn only_a_successful_submission_assigns_an_id() {
    let mut job = PrintJob::new("Office", &[], "Report", JOB).unwrap();
    assert_eq!(
        job.submit_with_file("doc.pdf", Err(2)),
        Err(CpdbError::JobFailed("submit_with_file".to_string()))
    );
    assert_eq!(job.id(), None);
    assert_eq!(job.submit_with_file("doc.pdf", Err(1)), Err(CpdbError::InvalidPrinter));
    assert_eq!(job.submit_with_file("doc.pdf", Err(0)), Err(CpdbError::NullPointer));
    assert_eq!(
        job.submit_with_file("doc.pdf", Err(9)),
        Err(backend_error("Unknown error (9): submit_with_file"))
    );
    assert_eq!(job.submit_with_file("doc\0.pdf", Ok(5)), Err(CpdbError::NulError(3)));
    assert_eq!(job.id(), None);
    assert_eq!(job.submit_with_file("doc.pdf", Ok(5)), Ok(()));
    assert_eq!(job.id(), Some(5));
    assert_eq!(
        job.submit_with_file("doc.pdf", Ok(6)),
        Err(CpdbError::JobFailed("Print job was already submitted".to_string()))
    );
    assert_eq!(job.id(), Some(5));
    assert_eq!(job.release(), Some(JOB));
    assert_eq!(job.submit_with_file("doc.pdf", Ok(7)), Err(CpdbError::NullPointer));
    assert_eq!(job.id(), None);
}

#[test]
fn job_strings_are_marshalled_in_order() {
    assert_eq!(
        PrintJob::new("Off\0ice", &[("a\0", "b")], "\0", 0),
        Err(CpdbError::NulError(3))
    );
    assert_eq!(
        PrintJob::new("Office", &[("a\0", "b")], "\0", JOB),
        Err(CpdbError::NulError(1))
    );
    assert_eq!(
        PrintJob::new("Office", &[("a", "b")], "\0", JOB),
        Err(CpdbError::NulError(0))
    );
}
