//! Validação de segurança: serviços que nunca se desligam e chaves do registro que só se tocam com cópia.

use vstd::prelude::*;
use crate::texto::{chars_of, eq_ignore_ascii_case, eq_ignore_ascii_case_exec, starts_with, starts_with_exec, str_eq};

verus! {

broadcast use vstd::string::group_string_axioms;

#[derive(Debug, Clone)]
pub struct ValidationError {
    pub code: String,
    pub message: String,
    pub severity: String,
}

#[derive(Debug, Clone)]
pub struct ValidationWarning {
    pub code: String,
    pub message: String,
    pub recommendation: String,
}

#[derive(Debug)]
pub struct ValidationResult {
    pub valid: bool,
    pub errors: Vec<ValidationError>,
    pub warnings: Vec<ValidationWarning>,
    /// De 0 a 100.
    pub safety_score: u8,
}

impl ValidationResult {
    pub fn failure(errors: Vec<ValidationError>) -> (r: Self)
        ensures
            !r.valid,
            r.errors@ == errors@,
            r.warnings@.len() == 0,
            r.safety_score == 0,
    {
        ValidationResult { valid: false, errors, warnings: Vec::new(), safety_score: 0 }
    }
}

pub struct SafetyValidator {
    critical_services: Vec<String>,
    critical_registry_keys: Vec<String>,
}

/// Windows Update, BITS, log de eventos, RPC, DCOM, Plug and Play e os dois do firewall.
pub open spec fn servicos_criticos() -> Seq<Seq<char>> {
    seq![
        "wuauserv"@,
        "BITS"@,
        "EventLog"@,
        "RpcSs"@,
        "DcomLaunch"@,
        "PlugPlay"@,
        "BFE"@,
        "mpssvc"@,
    ]
}

pub open spec fn chaves_criticas() -> Seq<Seq<char>> {
    seq![
        "HKLM\\SYSTEM\\CurrentControlSet\\Control"@,
        "HKLM\\SYSTEM\\CurrentControlSet\\Services"@,
        "HKLM\\SOFTWARE\\Microsoft\\Windows NT\\CurrentVersion\\Winlogon"@,
    ]
}

pub open spec fn e_servico_critico(nome: Seq<char>) -> bool {
    exists|i: int| 0 <= i < servicos_criticos().len() && eq_ignore_ascii_case(#[trigger] servicos_criticos()[i], nome)
}

pub open spec fn e_chave_segura(chave: Seq<char>) -> bool {
    !exists|i: int| 0 <= i < chaves_criticas().len() && starts_with(chave, #[trigger] chaves_criticas()[i])
}

pub open spec fn strings(v: Seq<String>) -> Seq<Seq<char>> {
    v.map_values(|s: String| s@)
}

impl SafetyValidator {
    pub closed spec fn bem_formado(&self) -> bool {
        strings(self.critical_services@) == servicos_criticos() && strings(self.critical_registry_keys@)
            == chaves_criticas()
    }

    pub fn new() -> (r: Self)
        ensures
            r.bem_formado(),
    {
        SafetyValidator {
            critical_services: Self::load_critical_services(),
            critical_registry_keys: Self::load_critical_registry_keys(),
        }
    }

    fn load_critical_services() -> (r: Vec<String>)
        ensures
            strings(r@) == servicos_criticos(),
    {
        let r = vec![
            "wuauserv".to_string(),
            "BITS".to_string(),
            "EventLog".to_string(),
            "RpcSs".to_string(),
            "DcomLaunch".to_string(),
            "PlugPlay".to_string(),
            "BFE".to_string(),
            "mpssvc".to_string(),
        ];
        assert(strings(r@) =~= servicos_criticos());
        r
    }

    fn load_critical_registry_keys() -> (r: Vec<String>)
        ensures
            strings(r@) == chaves_criticas(),
    {
        let r = vec![
            "HKLM\\SYSTEM\\CurrentControlSet\\Control".to_string(),
            "HKLM\\SYSTEM\\CurrentControlSet\\Services".to_string(),
            "HKLM\\SOFTWARE\\Microsoft\\Windows NT\\CurrentVersion\\Winlogon".to_string(),
        ];
        assert(strings(r@) =~= chaves_criticas());
        r
    }

    /// O serviço é crítico: a comparação ignora a caixa das letras, como o Windows.
    pub fn is_critical_service(&self, service_name: &str) -> (r: bool)
        requires
            self.bem_formado(),
        ensures
            r == e_servico_critico(service_name@),
    {
        let alvo = chars_of(service_name);
        let mut i: usize = 0;
        while i < self.critical_services.len()
            invariant
                self.bem_formado(),
                0 <= i <= servicos_criticos().len(),
                alvo@ == service_name@,
                forall|k: int| 0 <= k < i ==> !eq_ignore_ascii_case(#[trigger] servicos_criticos()[k], alvo@),
            decreases self.critical_services@.len() - i,
        {
            assert(strings(self.critical_services@)[i as int] == self.critical_services@[i as int]@);
            let s = chars_of(self.critical_services[i].as_str());
            if eq_ignore_ascii_case_exec(s.as_slice(), alvo.as_slice()) {
                return true;
            }
            i = i + 1;
        }
        false
    }

    /// A chave não começa por nenhuma das críticas.
    pub fn is_safe_registry_key(&self, key: &str) -> (r: bool)
        requires
            self.bem_formado(),
        ensures
            r == e_chave_segura(key@),
    {
        let alvo = chars_of(key);
        let mut i: usize = 0;
        while i < self.critical_registry_keys.len()
            invariant
                self.bem_formado(),
                0 <= i <= chaves_criticas().len(),
                alvo@ == key@,
                forall|k: int| 0 <= k < i ==> !starts_with(alvo@, #[trigger] chaves_criticas()[k]),
            decreases self.critical_registry_keys@.len() - i,
        {
            assert(strings(self.critical_registry_keys@)[i as int] == self.critical_registry_keys@[i as int]@);
            let s = chars_of(self.critical_registry_keys[i].as_str());
            if starts_with_exec(alvo.as_slice(), s.as_slice()) {
                return false;
            }
            i = i + 1;
        }
        true
    }

    /// Desligar serviço crítico é recusado (nota 0); mexer em chave crítica passa com aviso e perde 30 pontos.
    pub fn validate_operation(&self, operation_type: &str, target: &str) -> (r: ValidationResult)
        requires
            self.bem_formado(),
        ensures
            ({
                let desligar = operation_type@ == "service_disable"@;
                let modificar = operation_type@ == "registry_modify"@;
                let recusa = desligar && e_servico_critico(target@);
                let aviso = modificar && !e_chave_segura(target@);
                &&& r.valid == !recusa
                &&& r.safety_score == (if recusa { 0u8 } else if aviso { 70u8 } else { 100u8 })
                &&& r.errors@.len() == (if recusa { 1int } else { 0int })
                &&& r.warnings@.len() == (if aviso { 1int } else { 0int })
                &&& recusa ==> r.errors@[0].code@ == "CRITICAL_SERVICE"@ && r.errors@[0].message@
                    == "Cannot disable critical service: "@ + target@ && r.errors@[0].severity@
                    == "CRITICAL"@
                &&& aviso ==> r.warnings@[0].code@ == "CRITICAL_REGISTRY"@ && r.warnings@[0].message@
                    == "Modifying critical registry key: "@ + target@
                    && r.warnings@[0].recommendation@ == "Backup will be created automatically"@
            }),
    {
        let mut errors: Vec<ValidationError> = Vec::new();
        let mut warnings: Vec<ValidationWarning> = Vec::new();
        let mut safety_score: u8 = 100;
        proof {
            reveal_strlit("service_disable");
            reveal_strlit("registry_modify");
            assert("service_disable"@ != "registry_modify"@ ) by {
                assert("service_disable"@[0] != "registry_modify"@[0]);
            }
        }
        if str_eq(operation_type, "service_disable") {
            if self.is_critical_service(target) {
                let mut message = "Cannot disable critical service: ".to_string();
                message.append(target);
                errors.push(
                    ValidationError {
                        code: "CRITICAL_SERVICE".to_string(),
                        message,
                        severity: "CRITICAL".to_string(),
                    },
                );
                safety_score = 0;
            }
        } else if str_eq(operation_type, "registry_modify") {
            if !self.is_safe_registry_key(target) {
                let mut message = "Modifying critical registry key: ".to_string();
                message.append(target);
                warnings.push(
                    ValidationWarning {
                        code: "CRITICAL_REGISTRY".to_string(),
                        message,
                        recommendation: "Backup will be created automatically".to_string(),
                    },
                );
                safety_score = safety_score.saturating_sub(30);
            }
        }
        if errors.len() == 0 {
            ValidationResult { valid: true, errors, warnings, safety_score }
        } else {
            ValidationResult::failure(errors)
        }
    }
}

impl Default for SafetyValidator {
    fn default() -> (r: Self)
        ensures
            r.bem_formado(),
    {
        Self::new()
    }
}


/// Os serviços críticos são exatamente oito, comparados sem olhar maiúsculas: Windows Update, BITS, o log de
/// eventos, RPC, DCOM, Plug and Play e os dois do firewall. Desligar qualquer um deles é recusado com nota zero.
pub proof fn lei_os_oito_servicos_criticos(nome: Seq<char>)
    ensures
        e_servico_critico(nome) <==> (eq_ignore_ascii_case("wuauserv"@, nome) || eq_ignore_ascii_case("BITS"@, nome) || eq_ignore_ascii_case("EventLog"@, nome) || eq_ignore_ascii_case("RpcSs"@, nome) || eq_ignore_ascii_case("DcomLaunch"@, nome) || eq_ignore_ascii_case("PlugPlay"@, nome) || eq_ignore_ascii_case("BFE"@, nome) || eq_ignore_ascii_case("mpssvc"@, nome)),
{
    if e_servico_critico(nome) {
        let i = choose|i: int| 0 <= i < servicos_criticos().len() && eq_ignore_ascii_case(#[trigger] servicos_criticos()[i], nome);
        assert(0 <= i < 8);
    } else {
        if eq_ignore_ascii_case("wuauserv"@, nome) {
            assert(servicos_criticos()[0] == "wuauserv"@);
        }
        if eq_ignore_ascii_case("BITS"@, nome) {
            assert(servicos_criticos()[1] == "BITS"@);
        }
        if eq_ignore_ascii_case("EventLog"@, nome) {
            assert(servicos_criticos()[2] == "EventLog"@);
        }
        if eq_ignore_ascii_case("RpcSs"@, nome) {
            assert(servicos_criticos()[3] == "RpcSs"@);
        }
        if eq_ignore_ascii_case("DcomLaunch"@, nome) {
            assert(servicos_criticos()[4] == "DcomLaunch"@);
        }
        if eq_ignore_ascii_case("PlugPlay"@, nome) {
            assert(servicos_criticos()[5] == "PlugPlay"@);
        }
        if eq_ignore_ascii_case("BFE"@, nome) {
            assert(servicos_criticos()[6] == "BFE"@);
        }
        if eq_ignore_ascii_case("mpssvc"@, nome) {
            assert(servicos_criticos()[7] == "mpssvc"@);
        }
    }
}


/// Uma chave do registro só pede cópia quando começa por um destes três caminhos: o controle do sistema, os
/// serviços e o Winlogon.
pub proof fn lei_as_tres_chaves_criticas(chave: Seq<char>)
    ensures
        !e_chave_segura(chave) <==> (starts_with(chave, "HKLM\\SYSTEM\\CurrentControlSet\\Control"@) || starts_with(chave, "HKLM\\SYSTEM\\CurrentControlSet\\Services"@) || starts_with(chave, "HKLM\\SOFTWARE\\Microsoft\\Windows NT\\CurrentVersion\\Winlogon"@)),
{
    if !e_chave_segura(chave) {
        let i = choose|i: int| 0 <= i < chaves_criticas().len() && starts_with(chave, #[trigger] chaves_criticas()[i]);
        assert(0 <= i < 3);
    } else {
        if starts_with(chave, "HKLM\\SYSTEM\\CurrentControlSet\\Control"@) {
            assert(chaves_criticas()[0] == "HKLM\\SYSTEM\\CurrentControlSet\\Control"@);
        }
        if starts_with(chave, "HKLM\\SYSTEM\\CurrentControlSet\\Services"@) {
            assert(chaves_criticas()[1] == "HKLM\\SYSTEM\\CurrentControlSet\\Services"@);
        }
        if starts_with(chave, "HKLM\\SOFTWARE\\Microsoft\\Windows NT\\CurrentVersion\\Winlogon"@) {
            assert(chaves_criticas()[2] == "HKLM\\SOFTWARE\\Microsoft\\Windows NT\\CurrentVersion\\Winlogon"@);
        }
    }
}

} // verus!
