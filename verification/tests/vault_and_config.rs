use nomad_drain::lambda::{
    drain_plan, AsgEventDetails, AsgLifecycleTransition, Config, NomadClientPlan, NomadTokenPlan, VaultClientPlan,
    VaultConfig,
};
use nomad_drain::nomad::{DrainSpec, NodeEligibility};
use nomad_drain::vault::{
    join_strings, nomad_token_from_response, token_from_login_response, Authentication, Response, TokenType,
};
use nomad_drain::Error;

fn success(auth: Option<Authentication>, data: Option<Vec<(String, String)>>) -> Response {
    Response::Response {
        request_id: "xxx4".to_string(),
        lease_id: "nomad/creds/default/xxx".to_string(),
        renewable: true,
        lease_duration: 2764800,
        warnings: None,
        auth,
        data,
    }
}

fn auth(token: &str) -> Authentication {
    Authentication {
        client_token: token.to_string(),
        accessor: "acc".to_string(),
        policies: vec!["default".to_string()],
        token_policies: vec![],
        metadata: vec![],
        lease_duration: 60,
        renewable: false,
        entity_id: "e".to_string(),
        token_type: TokenType::Service,
    }
}

fn invalid_message(r: Result<String, Error>) -> String {
    match r {
        Err(Error::InvalidVaultResponse(m)) => m,
        other => panic!("unexpected {:?}", other),
    }
}

#[test]
fn login_response_gives_the_client_token() {
    assert_eq!(token_from_login_response(success(Some(auth("s.abc")), None)).unwrap(), "s.abc");
    assert_eq!(
        invalid_message(token_from_login_response(success(None, None))),
        "Missing authentication data"
    );
    let errors = Response::Error { errors: vec!["permission denied".to_string(), "bad role".to_string()] };
    assert_eq!(invalid_message(token_from_login_response(errors)), "permission denied; bad role");
}

#[test]
fn nomad_secrets_engine_response_gives_the_secret_id() {
    let data = vec![
        ("accessor_id".to_string(), "accessor".to_string()),
        ("secret_id".to_string(), "secret".to_string()),
    ];
    assert_eq!(nomad_token_from_response(success(None, Some(data))).unwrap(), "secret");
    let data = vec![("accessor_id".to_string(), "accessor".to_string())];
    assert_eq!(
        invalid_message(nomad_token_from_response(success(None, Some(data)))),
        "Missing Nomad token from response"
    );
    assert_eq!(invalid_message(nomad_token_from_response(success(None, None))), "Missing secrets data");
    let errors = Response::Error { errors: vec![] };
    assert_eq!(invalid_message(nomad_token_from_response(errors)), "");
}

#[test]
fn strings_are_joined_with_the_separator() {
    let list = vec!["a".to_string(), "b".to_string(), "c".to_string()];
    assert_eq!(join_strings(&list, "; "), "a; b; c");
    assert_eq!(join_strings(&vec!["only".to_string()], "; "), "only");
}

fn vault_config() -> VaultConfig {
    VaultConfig {
        vault_token: None,
        vault_address: Some("http://127.0.0.1:8200".to_string()),
        auth_path: Some("aws".to_string()),
        auth_role: Some("nomad_drain_lambda".to_string()),
        auth_header_value: Some("vault.example.com".to_string()),
        nomad_path: Some("nomad".to_string()),
        nomad_role: Some("drain".to_string()),
    }
}

fn config(use_nomad_token: bool, nomad_token: Option<&str>, vault_config: VaultConfig) -> Config {
    Config {
        nomad_address: "http://127.0.0.1:4646".to_string(),
        use_nomad_token,
        nomad_token: nomad_token.map(|s| s.to_string()),
        vault_config,
    }
}

fn missing(r: Result<NomadClientPlan, nomad_drain::lambda::Error>) -> String {
    match r {
        Err(nomad_drain::lambda::Error::MissingConfiguration(name)) => name,
        _ => panic!("expected a missing option"),
    }
}

#[test]
fn configured_nomad_token_is_used_without_vault() {
    assert!(Config::default_use_nomad_token());
    let c = config(true, Some("nomad-token"), vault_config());
    assert!(matches!(c.new_nomad_client(), Ok(NomadClientPlan::Connect(Some(t))) if t == "nomad-token"));
    assert!(matches!(c.get_nomad_token(), Ok(NomadTokenPlan::Configured(t)) if t == "nomad-token"));
    let c = config(false, None, vault_config());
    assert!(matches!(c.new_nomad_client(), Ok(NomadClientPlan::Connect(None))));
    let client = c.nomad_client(None).unwrap();
    assert_eq!(client.address(), "http://127.0.0.1:4646");
    assert_eq!(client.token(), None);
}

#[test]
fn vault_is_asked_when_no_nomad_token_is_configured() {
    let c = config(true, None, vault_config());
    match c.new_nomad_client() {
        Ok(NomadClientPlan::FromVault(VaultClientPlan::Login(l))) => {
            assert_eq!(l.vault_address, "http://127.0.0.1:8200");
            assert_eq!(l.auth_path, "aws");
            assert_eq!(l.auth_role, "nomad_drain_lambda");
            assert_eq!(l.header_value.as_deref(), Some("vault.example.com"));
        }
        _ => panic!("expected a Vault login"),
    }
    let mut v = vault_config();
    v.vault_token = Some("vault-token".to_string());
    let c = config(true, None, v);
    match c.get_vault_client() {
        Ok(VaultClientPlan::Ready(client)) => {
            assert_eq!(client.address(), "http://127.0.0.1:8200");
            assert_eq!(client.token(), "vault-token");
            let request = c.nomad_token_request(&client).unwrap();
            assert_eq!(request.url, "http://127.0.0.1:8200/v1/nomad/creds/drain");
            assert_eq!(request.header("X-Vault-Token").map(|s| s.as_str()), Some("vault-token"));
        }
        _ => panic!("expected a ready client"),
    }
}

#[test]
fn missing_options_are_named() {
    let mut v = vault_config();
    v.vault_address = None;
    assert_eq!(missing(config(true, None, v).new_nomad_client()), "vault_address");
    let mut v = vault_config();
    v.auth_path = None;
    assert_eq!(missing(config(true, None, v).new_nomad_client()), "auth_path");
    let mut v = vault_config();
    v.auth_role = None;
    assert_eq!(missing(config(true, None, v).new_nomad_client()), "auth_role");

    let mut v = vault_config();
    v.nomad_path = None;
    let c = config(true, None, v);
    let client = nomad_drain::vault::Client::new("http://127.0.0.1:8200", "t");
    assert!(matches!(
        c.nomad_token_request(&client),
        Err(nomad_drain::lambda::Error::MissingConfiguration(n)) if n == "nomad_path"
    ));
    let mut v = vault_config();
    v.nomad_role = None;
    let c = config(true, None, v);
    assert!(matches!(
        c.nomad_token_request(&client),
        Err(nomad_drain::lambda::Error::MissingConfiguration(n)) if n == "nomad_role"
    ));
}

fn event(transition: AsgLifecycleTransition) -> AsgEventDetails {
    AsgEventDetails {
        lifecycle_action_token: "tok".to_string(),
        auto_scaling_group_name: "asg".to_string(),
        instance_id: "i-123".to_string(),
        lifecycle_transition: transition,
        lifecycle_hook_name: "hook".to_string(),
    }
}

#[test]
fn terminating_instance_is_drained_and_completed() {
    let plan = drain_plan(&event(AsgLifecycleTransition::InstanceTerminating)).unwrap();
    assert_eq!(plan.instance_id, "i-123");
    assert_eq!(plan.eligibility, NodeEligibility::Ineligible);
    assert_eq!(plan.drain_spec, DrainSpec { deadline: 600, ignore_system_jobs: false });
    assert!(plan.monitor);
    assert_eq!(plan.completion.lifecycle_action_result, "CONTINUE");
    assert_eq!(plan.completion.auto_scaling_group_name, "asg");
    assert_eq!(plan.completion.lifecycle_action_token, "tok");
    assert_eq!(plan.completion.lifecycle_hook_name, "hook");
    assert!(matches!(
        drain_plan(&event(AsgLifecycleTransition::InstanceLaunching)),
        Err(nomad_drain::lambda::Error::UnexpectedLifecycleTransition)
    ));
}
