use dinstaller::hwinfo::{parse_u32, DiskInfo};
use dinstaller::printers::{Format, Printer, PrinterBuilder};
use dinstaller::profile::ValidationResult;
use dinstaller::progress::{all_finished, Progress, ProgressMonitor, ProxyAddress};
use dinstaller::settings::SettingObject;
use dinstaller::software::Product;
use dinstaller::{split_once_char, str_eq};

#[test]
fn split_once_splits_at_the_first_separator() {
    assert_eq!(split_once_char("a.b.c", '.'), Some(("a", "b.c")));
    assert_eq!(split_once_char(".b", '.'), Some(("", "b")));
    assert_eq!(split_once_char("abc", '.'), None);
    assert!(str_eq("same", "same"));
    assert!(!str_eq("same", "Same"));
}

#[test]
fn printer_builder_resolves_the_format() {
    let printer = PrinterBuilder::new(5u32, Vec::<u8>::new()).with_format(Format::Json).build();
    match printer {
        Printer::Json(p) => {
            assert_eq!(p.content, 5);
            assert!(p.writer.is_empty());
        }
        _ => panic!("expected a JSON printer"),
    }
    let printer = PrinterBuilder::new(1u8, Vec::<u8>::new()).build();
    assert!(matches!(printer, Printer::Text(_)));
}

#[test]
fn validation_result_folds_error_messages() {
    assert!(matches!(ValidationResult::from_errors(vec![]), ValidationResult::Valid));
    match ValidationResult::from_errors(vec!["missing user".to_string()]) {
        ValidationResult::NotValid(messages) => assert_eq!(messages, vec!["missing user"]),
        ValidationResult::Valid => panic!("one message must not validate"),
    }
}

#[test]
fn progress_monitor_tracks_proxies_and_completion() {
    let mut monitor = ProgressMonitor::default();
    assert!(monitor.proxies.is_empty());
    monitor.add_proxy(ProxyAddress {
        destination: "org.opensuse.DInstaller".to_string(),
        path: "/org/opensuse/DInstaller/Manager1".to_string(),
    });
    assert_eq!(monitor.proxies.len(), 1);

    let done = Progress { finished: true, ..Default::default() };
    let pending = Progress::default();
    assert!(all_finished(&vec![]));
    let states = vec![done, pending];
    assert!(!all_finished(&states));
    let states: Vec<Progress> = states
        .into_iter()
        .map(|mut p| {
            p.finished = true;
            p
        })
        .collect();
    assert!(all_finished(&states));
}

#[test]
fn disk_sizes_parse_their_leading_number() {
    assert_eq!(parse_u32("1024"), Some(1024));
    assert_eq!(parse_u32("4294967295"), Some(u32::MAX));
    assert_eq!(parse_u32("4294967296"), None);
    assert_eq!(parse_u32(""), None);
    assert_eq!(parse_u32("12x"), None);

    let disk = DiskInfo::from_fields("/dev/sda".to_string(), "1024 MB").unwrap();
    assert_eq!(disk.name, "/dev/sda");
    assert_eq!(disk.size, 1024);

    let disk = DiskInfo::from_fields("/dev/sdb".to_string(), "unknown").unwrap();
    assert_eq!(disk.size, 0);

    assert!(DiskInfo::from_fields("/dev/sdc".to_string(), "12x MB").is_none());
}

#[test]
fn products_default_to_an_empty_description() {
    let product = Product::from_parts("Leap".to_string(), "openSUSE Leap".to_string(), None);
    assert_eq!(product.description, "");
    let product = Product::from_parts(
        "ALP".to_string(),
        "ALP".to_string(),
        Some("An adaptable platform".to_string()),
    );
    assert_eq!(product.description, "An adaptable platform");
}

#[test]
fn setting_objects_answer_the_first_match() {
    let pairs = vec![
        ("name".to_string(), "/dev/sda".to_string()),
        ("name".to_string(), "/dev/sdb".to_string()),
    ];
    let object = SettingObject::from_pairs(&pairs);
    assert_eq!(object.get("name").unwrap().0, "/dev/sda");
    assert!(object.get("size").is_none());
}
