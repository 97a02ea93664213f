use pc_optimizer::safety::SafetyValidator;

#[test]
fn test_critical_service_detection() {
    let validator = SafetyValidator::new();
    assert!(validator.is_critical_service("wuauserv"));
    assert!(validator.is_critical_service("EventLog"));
    assert!(!validator.is_critical_service("SomeRandomService"));
}

#[test]
fn test_service_validation() {
    let validator = SafetyValidator::new();

    let result = validator.validate_operation("service_disable", "wuauserv");
    assert!(!result.valid);
    assert!(!result.errors.is_empty());

    let result = validator.validate_operation("service_disable", "SafeService");
    assert!(result.valid);
}

#[test]
fn caixa_das_letras_nao_salva_servico_critico() {
    let validator = SafetyValidator::new();
    assert!(validator.is_critical_service("WUAUSERV"));
    let r = validator.validate_operation("service_disable", "bits");
    assert_eq!(r.safety_score, 0);
    assert_eq!(r.errors[0].message, "Cannot disable critical service: bits");
}

#[test]
fn chave_critica_passa_com_aviso_e_perde_trinta_pontos() {
    let validator = SafetyValidator::new();
    let r = validator.validate_operation(
        "registry_modify",
        "HKLM\\SYSTEM\\CurrentControlSet\\Services\\Foo",
    );
    assert!(r.valid);
    assert_eq!(r.safety_score, 70);
    assert_eq!(r.warnings.len(), 1);
    assert_eq!(r.warnings[0].code, "CRITICAL_REGISTRY");

    let r = validator.validate_operation("registry_modify", "HKCU\\Control Panel\\Mouse");
    assert_eq!(r.safety_score, 100);
    assert!(r.warnings.is_empty());
    assert!(validator.is_safe_registry_key("HKCU\\Control Panel\\Mouse"));
}
