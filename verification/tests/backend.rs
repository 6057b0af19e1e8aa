use orb_control::backend::{
    Backend, BackendChoiceError, BackendFromEnvError, BackendParseErr, BuildType, VarError,
    ORB_BACKEND_ENV_VAR_NAME,
};

#[test]
fn test_backend_parse() {
    assert_eq!(Backend::from_str("prod").unwrap(), Backend::Prod);
    assert_eq!(Backend::from_str("pRod").unwrap(), Backend::Prod);
    assert_eq!(Backend::from_str("stage").unwrap(), Backend::Staging);
    assert_eq!(Backend::from_str("staGe").unwrap(), Backend::Staging);
    assert_eq!(Backend::from_str("dev").unwrap(), Backend::Staging);
    assert_eq!(Backend::from_str("analysis").unwrap(), Backend::Analysis);
    assert_eq!(Backend::from_str("foobar"), Err(BackendParseErr));
}

#[test]
fn every_name_is_known() {
    let names = [
        ("prod", Backend::Prod),
        ("production", Backend::Prod),
        ("stage", Backend::Staging),
        ("staging", Backend::Staging),
        ("dev", Backend::Staging),
        ("development", Backend::Staging),
        ("analysis", Backend::Analysis),
        ("analysis.ml", Backend::Analysis),
        ("analysis-ml", Backend::Analysis),
        ("local", Backend::Local),
        ("localhost", Backend::Local),
        ("127.0.0.1", Backend::Local),
    ];
    for (name, backend) in names {
        assert_eq!(Backend::from_str(name), Ok(backend));
        assert_eq!(Backend::from_str(&name.to_uppercase()), Ok(backend));
        assert_eq!(Backend::from_str(&format!(" \t\n{name}\u{a0}\u{3000}")), Ok(backend));
        assert_eq!(name.parse::<Backend>(), Ok(backend));
    }
}

#[test]
fn other_words_are_no_names() {
    for word in ["", " ", "pro d", "prod1", "stag", "127.0.0.2", "pröd", "\u{200b}prod"] {
        assert_eq!(Backend::from_str(word), Err(BackendParseErr));
        assert_eq!(word.parse::<Backend>(), Err(BackendParseErr));
    }
}

#[test]
fn words_are_in_lower_case() {
    assert_eq!(Backend::from_word(&"prod".to_string()), Ok(Backend::Prod));
    assert_eq!(Backend::from_word(&"Prod".to_string()), Err(BackendParseErr));
    assert_eq!(Backend::from_word(&" prod".to_string()), Err(BackendParseErr));
}

#[test]
fn white_space_is_what_surrounds_a_name() {
    let blank = |c: char| {
        matches!(
            c as u32,
            0x09..=0x0d
                | 0x20
                | 0x85
                | 0xa0
                | 0x1680
                | 0x2000..=0x200a
                | 0x2028
                | 0x2029
                | 0x202f
                | 0x205f
                | 0x3000
        )
    };
    for c in '\0'..=char::MAX {
        let named = blank(c);
        assert_eq!(Backend::from_str(&format!("{c}dev")).is_ok(), named);
        assert_eq!(Backend::from_str(&format!("dev{c}")).is_ok(), named);
    }
}

#[test]
fn only_letter_case_is_ignored_in_ascii() {
    for c in '\0'..='\x7f' {
        let named = c == 'v' || c == 'V';
        assert_eq!(Backend::from_str(&format!("de{c}")).is_ok(), named);
    }
}

#[test]
fn letter_case_is_ignored_beside_other_characters() {
    for c in '\0'..=char::MAX {
        let (upper, lower) = (format!("A{c}B"), format!("a{c}b"));
        assert_eq!(upper.to_lowercase(), lower.to_lowercase());
        assert_eq!(Backend::from_str(&upper), Backend::from_str(&lower));
        let (upper, lower) = (format!("A{c}Σ{c}B Σ{c}"), format!("a{c}Σ{c}b Σ{c}"));
        assert_eq!(upper.to_lowercase(), lower.to_lowercase());
    }
}

#[test]
fn lower_case_may_come_first() {
    for c in '\0'..=char::MAX {
        for text in [format!("{c}"), format!(" A{c}Σ\u{a0}"), format!("{c}Σ{c}\u{3000}")] {
            let lower = text.to_lowercase();
            assert_eq!(lower.to_lowercase(), lower);
            assert_eq!(lower.trim(), text.trim().to_lowercase());
            assert_eq!(Backend::from_str(&lower), Backend::from_str(&text));
        }
    }
    for text in ["PRöD", "\u{3000}LOCALHOST\u{85}", "DEVΣ", "ΣTAGE", "İLOCAL"] {
        let lower = text.to_ascii_lowercase();
        assert_eq!(Backend::from_str(text), Backend::from_str(&lower));
        assert_eq!(Backend::from_str(&text.to_lowercase()), Backend::from_str(text));
    }
}

#[test]
fn env_variable_is_parsed() {
    assert_eq!(ORB_BACKEND_ENV_VAR_NAME, "ORB_BACKEND");
    assert_eq!(Backend::from_env(Ok(" Local ".to_string())), Ok(Backend::Local));
    assert_eq!(
        Backend::from_env(Ok("nowhere".to_string())),
        Err(BackendFromEnvError::Invalid(BackendParseErr))
    );
    assert_eq!(
        Backend::from_env(Err(VarError::NotUnicode)),
        Err(BackendFromEnvError::Invalid(BackendParseErr))
    );
    assert_eq!(Backend::from_env(Err(VarError::NotPresent)), Err(BackendFromEnvError::NotSet));
}

#[test]
fn build_decides_without_the_variable() {
    let builds = [
        (BuildType::Prod, Backend::Prod),
        (BuildType::Staging, Backend::Staging),
        (BuildType::Stage, Backend::Staging),
        (BuildType::Analysis, Backend::Analysis),
    ];
    for (build, backend) in builds {
        let unset = Err(BackendFromEnvError::NotSet);
        assert_eq!(Backend::from_env_or_build_type(unset, build), backend);
        assert_eq!(
            Backend::try_from_env_or_build_type(Err(VarError::NotPresent), build),
            Ok(backend)
        );
    }
}

#[test]
fn variable_wins_over_the_build() {
    assert_eq!(
        Backend::from_env_or_build_type(Ok(Backend::Local), BuildType::Prod),
        Backend::Local
    );
    assert_eq!(
        Backend::from_env_or_build_type(Ok(Backend::Analysis), BuildType::Staging),
        Backend::Analysis
    );
    assert_eq!(
        Backend::try_from_env_or_build_type(Ok("PROD".to_string()), BuildType::Prod),
        Ok(Backend::Prod)
    );
}

#[test]
fn prod_is_for_prod_builds_only() {
    let prod = || Ok("production".to_string());
    assert_eq!(
        Backend::try_from_env_or_build_type(prod(), BuildType::Staging),
        Err(BackendChoiceError::ProdOnStaging)
    );
    assert_eq!(
        Backend::try_from_env_or_build_type(prod(), BuildType::Analysis),
        Err(BackendChoiceError::ProdOnAnalysis)
    );
    assert_eq!(
        BackendChoiceError::ProdOnStaging.message(),
        "tried to talk to prod backend but this is a staging build!"
    );
    assert_eq!(
        BackendChoiceError::ProdOnAnalysis.message(),
        "tried to talk to prod backend but this is an analysis build!"
    );
}

#[test]
fn bad_variable_is_refused() {
    let invalid = BackendFromEnvError::Invalid(BackendParseErr);
    for var in [Ok("nope".to_string()), Err(VarError::NotUnicode)] {
        let choice = Backend::try_from_env_or_build_type(var, BuildType::Prod);
        assert_eq!(choice, Err(BackendChoiceError::Unparsable(invalid)));
        assert_eq!(
            choice.unwrap_err().message(),
            "could not parse backend from env var: env var ORB_BACKEND failed to parse"
        );
    }
}

#[test]
fn errors_in_words() {
    assert_eq!(BackendParseErr.message(), "failed to parse `Backend` from str");
    assert_eq!(BackendFromEnvError::NotSet.message(), "env var ORB_BACKEND was not set");
    assert_eq!(BackendFromEnvError::NotSet.source(), None);
    let invalid = BackendFromEnvError::from(BackendParseErr);
    assert_eq!(invalid, BackendFromEnvError::Invalid(BackendParseErr));
    assert_eq!(invalid.message(), "env var ORB_BACKEND failed to parse");
    assert_eq!(invalid.source(), Some(&BackendParseErr));
}
