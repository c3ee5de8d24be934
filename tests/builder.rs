use presutaoru::{PsiEntry, PsiFdBuilder, PsiFdBuilderError, PsiTrigger, StallType};

fn full_builder() -> PsiFdBuilder {
    PsiFdBuilder::default()
        .entry(PsiEntry::Cpu)
        .stall_type(StallType::Partial)
        .stall_amount(500)
        .time_window(1_000_000)
}

#[test]
fn entry_paths() {
    assert_eq!(PsiEntry::Cpu.path(), "/proc/pressure/cpu");
    assert_eq!(PsiEntry::Io.path(), "/proc/pressure/io");
    assert_eq!(PsiEntry::Irq.path(), "/proc/pressure/irq");
    assert_eq!(PsiEntry::Memory.path(), "/proc/pressure/memory");
}

#[test]
fn presence_matches_the_filesystem() {
    let on_disk = std::path::Path::new("/proc/pressure/memory").exists();
    assert_eq!(PsiEntry::Memory.is_present(), on_disk);
}

#[test]
fn stall_words() {
    assert_eq!(StallType::Partial.word(), "some");
    assert_eq!(StallType::Full.word(), "full");
}

#[test]
fn setters_fill_fields() {
    let b = full_builder();
    assert_eq!(b.entry, Some(PsiEntry::Cpu));
    assert_eq!(b.stall_type, Some(StallType::Partial));
    assert_eq!(b.stall_amount, Some(500));
    assert_eq!(b.time_window, Some(1_000_000));
    let d = PsiFdBuilder::default();
    assert!(d.entry.is_none() && d.stall_type.is_none());
    assert!(d.stall_amount.is_none() && d.time_window.is_none());
}

#[test]
fn validate_accepts_complete_settings() {
    let t = full_builder().validate().unwrap();
    assert_eq!(
        t,
        PsiTrigger {
            entry: PsiEntry::Cpu,
            stall_type: StallType::Partial,
            stall_amount: 500,
            time_window: 1_000_000,
        }
    );
}

#[test]
fn validate_reports_missing_settings_in_order() {
    let b = PsiFdBuilder::default();
    assert_eq!(b.validate(), Err(PsiFdBuilderError::NoEntry));
    let b = b.entry(PsiEntry::Io);
    assert_eq!(b.validate(), Err(PsiFdBuilderError::NoStallType));
    let b = b.stall_type(StallType::Full);
    assert_eq!(b.validate(), Err(PsiFdBuilderError::NoStallAmount));
    let b = b.stall_amount(100);
    assert_eq!(b.validate(), Err(PsiFdBuilderError::NoTimeWindow));
    let b = b.time_window(600_000);
    assert!(b.validate().is_ok());
}

#[test]
fn window_must_be_half_a_second() {
    let b = full_builder().time_window(499_999);
    assert_eq!(b.validate(), Err(PsiFdBuilderError::TimeWindowTooSmall));
    let b = full_builder().time_window(500_000);
    assert!(b.validate().is_ok());
}

#[test]
fn stall_must_be_below_window() {
    let b = full_builder().stall_amount(1_000_000);
    assert_eq!(b.validate(), Err(PsiFdBuilderError::StallAmountTooLarge));
    let b = full_builder().stall_amount(999_999);
    assert!(b.validate().is_ok());
}

#[test]
fn build_checks_settings_before_the_system() {
    assert_eq!(
        full_builder().stall_amount(2_000_000).build(),
        Err(PsiFdBuilderError::StallAmountTooLarge)
    );
}

#[test]
fn build_reports_a_missing_pressure_file() {
    let b = full_builder().entry(PsiEntry::Irq);
    let r = b.build();
    if PsiEntry::Irq.is_present() {
        assert_eq!(r, Ok(b.validate().unwrap()));
    } else {
        assert_eq!(r, Err(PsiFdBuilderError::NoPsiEntry(PsiEntry::Irq)));
    }
}

#[test]
fn command_line_partial() {
    let t = full_builder().validate().unwrap();
    assert_eq!(t.command(), b"some 500 1000000\n".to_vec());
}

#[test]
fn command_line_full_and_zero() {
    let t = PsiTrigger {
        entry: PsiEntry::Memory,
        stall_type: StallType::Full,
        stall_amount: 0,
        time_window: 10_000_000,
    };
    assert_eq!(t.command(), b"full 0 10000000\n".to_vec());
}

#[test]
fn command_line_largest_values() {
    let t = PsiTrigger {
        entry: PsiEntry::Io,
        stall_type: StallType::Full,
        stall_amount: u64::MAX - 1,
        time_window: u64::MAX,
    };
    assert_eq!(
        t.command(),
        b"full 18446744073709551614 18446744073709551615\n".to_vec()
    );
}
