use tre_regex::{RegcompFlags, RegexecFlags};

#[test]
fn regcomp_flags_works() {
    let regcomp_flags = RegcompFlags::new().add(RegcompFlags::EXTENDED);
    assert_eq!(regcomp_flags.get(), RegcompFlags::EXTENDED);

    let regcomp_flags = regcomp_flags.add(RegcompFlags::ICASE);
    assert_eq!(
        regcomp_flags.get(),
        RegcompFlags::EXTENDED | RegcompFlags::ICASE
    );

    let regcomp_flags = regcomp_flags.remove(RegcompFlags::EXTENDED);
    assert_eq!(regcomp_flags.get(), RegcompFlags::ICASE);
}

#[test]
fn regexec_flags_works() {
    let regexec_flags = RegexecFlags::new().add(RegexecFlags::NOTBOL);
    assert_eq!(regexec_flags.get(), RegexecFlags::NOTBOL);

    let regexec_flags = regexec_flags.add(RegexecFlags::NOTEOL);
    assert_eq!(
        regexec_flags.get(),
        RegexecFlags::NOTBOL | RegexecFlags::NOTEOL
    );

    let regexec_flags = regexec_flags.remove(RegexecFlags::NOTBOL);
    assert_eq!(regexec_flags.get(), RegexecFlags::NOTEOL);
}

#[test]
fn flag_constants_match_engine_values() {
    assert_eq!(RegcompFlags::BASIC, 0);
    assert_eq!(RegcompFlags::EXTENDED, 1);
    assert_eq!(RegcompFlags::ICASE, 2);
    assert_eq!(RegcompFlags::NEWLINE, 4);
    assert_eq!(RegcompFlags::NOSUB, 8);
    assert_eq!(RegcompFlags::LITERAL, 16);
    assert_eq!(RegcompFlags::RIGHT_ASSOC, 32);
    assert_eq!(RegcompFlags::UNGREEDY, 64);
    assert_eq!(RegcompFlags::USEBYTES, 128);
    assert_eq!(RegexecFlags::NONE, 0);
    assert_eq!(RegexecFlags::NOTBOL, 1);
    assert_eq!(RegexecFlags::NOTEOL, 2);
    assert_eq!(RegexecFlags::APPROX_MATCHER, 4);
    assert_eq!(RegexecFlags::BACKTRACKING_MATCHER, 8);
}

#[test]
fn flag_order_does_not_matter() {
    let a = RegcompFlags::new()
        .add(RegcompFlags::ICASE)
        .add(RegcompFlags::UNGREEDY);
    let b = RegcompFlags::new()
        .add(RegcompFlags::UNGREEDY)
        .add(RegcompFlags::ICASE);
    assert_eq!(a, b);
    assert_eq!(a.get(), 66);
}

#[test]
fn flag_added_twice_is_kept_once() {
    let once = RegexecFlags::new().add(RegexecFlags::NOTEOL);
    let twice = once.add(RegexecFlags::NOTEOL);
    assert_eq!(once, twice);
    assert_eq!(twice.remove(RegexecFlags::NOTEOL).get(), 0);
}

#[test]
fn flag_default_is_empty() {
    assert_eq!(RegcompFlags::default().get(), 0);
    assert_eq!(RegexecFlags::default().get(), 0);
    let none = RegexecFlags::new().add(RegexecFlags::NONE);
    assert_eq!(none.get(), 0);
}
