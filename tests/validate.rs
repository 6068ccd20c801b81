use reat::validate;
use reat::validate::Stranding;
use reat::reads::StrandSpecificExperimentDesign;

#[test]
fn stranding() {
    for symbol in ["u", "s", "f", "s/f", "f/s"] {
        assert!(validate::stranding(symbol).is_ok());
    }
    for symbol in [".", "r", "uf", "ff", "rr", "+", "-"] {
        assert!(validate::stranding(symbol).is_err())
    }
}

#[test]
fn numeric() {
    let validator = validate::numeric(10, 12);
    assert!(validator("9").is_err());
    assert!(validator("10").is_ok());
    assert!(validator("12").is_ok());
    assert!(validator("13").is_err());

    let validator = validate::numeric(10, 10);
    assert!(validator("9").is_err());
    assert!(validator("10").is_ok());
    assert!(validator("11").is_err());
}

#[test]
fn stranding_parse_designs() {
    assert_eq!(Stranding::parse("u"), Ok(Stranding::Unstranded));
    assert_eq!(Stranding::parse("s"), Ok(Stranding::Stranded(StrandSpecificExperimentDesign::Same)));
    assert_eq!(Stranding::parse("f"), Ok(Stranding::Stranded(StrandSpecificExperimentDesign::Flip)));
    assert_eq!(
        Stranding::parse("s/f"),
        Ok(Stranding::Stranded(StrandSpecificExperimentDesign::Same1Flip2))
    );
    assert_eq!(
        Stranding::parse("f/s"),
        Ok(Stranding::Stranded(StrandSpecificExperimentDesign::Flip1Same2))
    );
    assert!(Stranding::parse("").is_err());
    assert!(Stranding::parse("s/s").is_err());
}

#[test]
fn numeric_rejects_malformed_numbers() {
    let validator = validate::numeric(0, u32::MAX);
    assert!(validator("+7").is_ok());
    assert!(validator("4294967295").is_ok());
    assert!(validator("4294967296").is_err());
    assert!(validator("").is_err());
    assert!(validator("-1").is_err());
    assert!(validator(" 5").is_err());
    assert!(validator("5a").is_err());
    assert!(validator("0.5").is_err());
}
