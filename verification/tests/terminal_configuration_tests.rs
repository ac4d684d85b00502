use cargo_stripe::sdk::terminal_configuration::{
    CreateTerminalConfiguration, CreateTerminalConfigurationWifiType, ListTerminalConfigurations,
    TerminalConfigurationConfigurationResourceWifiConfigType,
};
use cargo_stripe::sdk::types::Id;

#[test]
fn new_create_parameters_set_nothing() {
    let params = CreateTerminalConfiguration::new();
    assert!(params.bbpos_wisepos_e.is_none());
    assert!(params.expand.is_empty());
    assert!(params.name.is_none());
    assert!(params.offline.is_none());
    assert!(params.reboot_window.is_none());
    assert!(params.stripe_s700.is_none());
    assert!(params.tipping.is_none());
    assert!(params.verifone_p400.is_none());
    assert!(params.wifi.is_none());
}

#[test]
fn new_list_parameters_set_nothing() {
    let mut params = ListTerminalConfigurations::new();
    assert!(params.ending_before.is_none());
    assert!(params.expand.is_empty());
    assert!(params.is_account_default.is_none());
    assert!(params.limit.is_none());
    assert!(params.starting_after.is_none());
    params.limit = Some(10);
    params.set_last(Id::new("tmc_1".to_string()));
    assert_eq!(params.starting_after, Some(Id("tmc_1".to_string())));
    assert_eq!(params.limit, Some(10));
    assert!(params.ending_before.is_none());
}

#[test]
fn wifi_types_are_named() {
    assert_eq!(CreateTerminalConfigurationWifiType::EnterpriseEapPeap.as_str(), "enterprise_eap_peap");
    assert_eq!(CreateTerminalConfigurationWifiType::EnterpriseEapTls.as_str(), "enterprise_eap_tls");
    assert_eq!(CreateTerminalConfigurationWifiType::PersonalPsk.as_str(), "personal_psk");
    assert_eq!(
        CreateTerminalConfigurationWifiType::default(),
        CreateTerminalConfigurationWifiType::EnterpriseEapPeap
    );
    assert_eq!(
        TerminalConfigurationConfigurationResourceWifiConfigType::EnterpriseEapPeap.as_str(),
        "enterprise_eap_peap"
    );
    assert_eq!(
        TerminalConfigurationConfigurationResourceWifiConfigType::EnterpriseEapTls.as_str(),
        "enterprise_eap_tls"
    );
    assert_eq!(
        TerminalConfigurationConfigurationResourceWifiConfigType::PersonalPsk.as_str(),
        "personal_psk"
    );
    assert_eq!(
        TerminalConfigurationConfigurationResourceWifiConfigType::default(),
        TerminalConfigurationConfigurationResourceWifiConfigType::EnterpriseEapPeap
    );
}
