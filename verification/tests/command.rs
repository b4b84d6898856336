use azure_mcp::command::{
    env_for_settings, npm_install_needed, package_name, server_command, Settings,
};

#[test]
fn package_name_is_the_npm_component() {
    assert_eq!(package_name(), "@azure/mcp");
}

#[test]
fn production_credentials_enable_the_variable() {
    let env = env_for_settings(&Settings { enable_production_credentials: true });
    assert_eq!(
        env,
        vec![("AZURE_MCP_PRODUCTION_CREDENTIALS".to_string(), "true".to_string())]
    );
}

#[test]
fn no_production_credentials_means_empty_environment() {
    let env = env_for_settings(&Settings { enable_production_credentials: false });
    assert_eq!(env, Vec::<(String, String)>::new());
}

#[test]
fn npm_install_needed_when_nothing_installed() {
    assert!(npm_install_needed(&None, &"2.0.1".to_string()));
}

#[test]
fn npm_install_needed_when_versions_differ() {
    assert!(npm_install_needed(&Some("2.0.0".to_string()), &"2.0.1".to_string()));
}

#[test]
fn npm_install_skipped_when_up_to_date() {
    assert!(!npm_install_needed(&Some("2.0.1".to_string()), &"2.0.1".to_string()));
}

#[test]
fn server_command_runs_the_artifact() {
    let env = vec![("AZURE_MCP_PRODUCTION_CREDENTIALS".to_string(), "true".to_string())];
    let cmd = server_command("/abs/azmcp".to_string(), env.clone());
    assert_eq!(cmd.command, "/abs/azmcp");
    assert_eq!(cmd.args, vec!["server".to_string(), "start".to_string()]);
    assert_eq!(cmd.env, env);
}
