//! The configuration of terminal readers.

use vstd::prelude::*;
use crate::sdk::types::Id;

verus! {

#[derive(Clone, Debug, Default)]
pub struct TerminalConfigurationConfigurationResourceOfflineConfig {
    /// Determines whether to allow transactions to be collected while reader is offline.
    ///
    /// Defaults to false.
    pub enabled: Option<bool>,
}

#[derive(Clone, Debug, Default)]
pub struct TerminalConfigurationConfigurationResourceRebootWindow {
    /// Integer between 0 to 23 that represents the end hour of the reboot time window.
    ///
    /// The value must be different than the start_hour.
    pub end_hour: i64,
    /// Integer between 0 to 23 that represents the start hour of the reboot time window.
    pub start_hour: i64,
}

#[derive(Clone, Debug, Default)]
pub struct TerminalConfigurationConfigurationResourceTipping {
    pub aud: Option<TerminalConfigurationConfigurationResourceCurrencySpecificConfig>,
    pub cad: Option<TerminalConfigurationConfigurationResourceCurrencySpecificConfig>,
    pub chf: Option<TerminalConfigurationConfigurationResourceCurrencySpecificConfig>,
    pub czk: Option<TerminalConfigurationConfigurationResourceCurrencySpecificConfig>,
    pub dkk: Option<TerminalConfigurationConfigurationResourceCurrencySpecificConfig>,
    pub eur: Option<TerminalConfigurationConfigurationResourceCurrencySpecificConfig>,
    pub gbp: Option<TerminalConfigurationConfigurationResourceCurrencySpecificConfig>,
    pub hkd: Option<TerminalConfigurationConfigurationResourceCurrencySpecificConfig>,
    pub jpy: Option<TerminalConfigurationConfigurationResourceCurrencySpecificConfig>,
    pub myr: Option<TerminalConfigurationConfigurationResourceCurrencySpecificConfig>,
    pub nok: Option<TerminalConfigurationConfigurationResourceCurrencySpecificConfig>,
    pub nzd: Option<TerminalConfigurationConfigurationResourceCurrencySpecificConfig>,
    pub pln: Option<TerminalConfigurationConfigurationResourceCurrencySpecificConfig>,
    pub sek: Option<TerminalConfigurationConfigurationResourceCurrencySpecificConfig>,
    pub sgd: Option<TerminalConfigurationConfigurationResourceCurrencySpecificConfig>,
    pub usd: Option<TerminalConfigurationConfigurationResourceCurrencySpecificConfig>,
}

#[derive(Clone, Debug, Default)]
pub struct TerminalConfigurationConfigurationResourceCurrencySpecificConfig {
    /// Fixed amounts displayed when collecting a tip.
    pub fixed_amounts: Option<Vec<i64>>,
    /// Percentages displayed when collecting a tip.
    pub percentages: Option<Vec<i64>>,
    /// Below this amount, fixed amounts will be displayed; above it, percentages will be displayed.
    pub smart_tip_threshold: Option<i64>,
}

#[derive(Clone, Debug, Default)]
pub struct TerminalConfigurationConfigurationResourceWifiConfig {
    pub enterprise_eap_peap: Option<TerminalConfigurationConfigurationResourceEnterprisePeapWifi>,
    pub enterprise_eap_tls: Option<TerminalConfigurationConfigurationResourceEnterpriseTlsWifi>,
    pub personal_psk: Option<TerminalConfigurationConfigurationResourcePersonalPskWifi>,
    /// Security type of the WiFi network.
    ///
    /// The hash with the corresponding name contains the credentials for this security type.
    pub type_: TerminalConfigurationConfigurationResourceWifiConfigType,
}

#[derive(Clone, Debug, Default)]
pub struct TerminalConfigurationConfigurationResourceEnterprisePeapWifi {
    /// A File ID representing a PEM file containing the server certificate.
    pub ca_certificate_file: Option<String>,
    /// Password for connecting to the WiFi network.
    pub password: String,
    /// Name of the WiFi network.
    pub ssid: String,
    /// Username for connecting to the WiFi network.
    pub username: String,
}

#[derive(Clone, Debug, Default)]
pub struct TerminalConfigurationConfigurationResourceEnterpriseTlsWifi {
    /// A File ID representing a PEM file containing the server certificate.
    pub ca_certificate_file: Option<String>,
    /// A File ID representing a PEM file containing the client certificate.
    pub client_certificate_file: String,
    /// A File ID representing a PEM file containing the client RSA private key.
    pub private_key_file: String,
    /// Password for the private key file.
    pub private_key_file_password: Option<String>,
    /// Name of the WiFi network.
    pub ssid: String,
}

#[derive(Clone, Debug, Default)]
pub struct TerminalConfigurationConfigurationResourcePersonalPskWifi {
    /// Password for connecting to the WiFi network.
    pub password: String,
    /// Name of the WiFi network.
    pub ssid: String,
}

/// The parameters for `TerminalConfiguration::create`.
#[derive(Clone, Debug, Default)]
pub struct CreateTerminalConfiguration<'a> {
    /// An object containing device type specific settings for BBPOS WisePOS E readers.
    pub bbpos_wisepos_e: Option<CreateTerminalConfigurationBbposWiseposE>,
    /// Specifies which fields in the response should be expanded.
    pub expand: &'a [&'a str],
    /// Name of the configuration.
    pub name: Option<&'a str>,
    /// Configurations for collecting transactions offline.
    pub offline: Option<CreateTerminalConfigurationOffline>,
    /// Reboot time settings for readers that support customized reboot time configuration.
    pub reboot_window: Option<CreateTerminalConfigurationRebootWindow>,
    /// An object containing device type specific settings for Stripe S700 readers.
    pub stripe_s700: Option<CreateTerminalConfigurationStripeS700>,
    /// Tipping configurations for readers supporting on-reader tips.
    pub tipping: Option<CreateTerminalConfigurationTipping>,
    /// An object containing device type specific settings for Verifone P400 readers.
    pub verifone_p400: Option<CreateTerminalConfigurationVerifoneP400>,
    /// Configurations for connecting to a WiFi network.
    pub wifi: Option<CreateTerminalConfigurationWifi>,
}

/// The parameters for `TerminalConfiguration::list`.
#[derive(Clone, Debug, Default)]
pub struct ListTerminalConfigurations<'a> {
    /// A cursor for use in pagination.
    ///
    /// `ending_before` is an object ID that defines your place in the list.
    /// For instance, if you make a list request and receive 100 objects, starting with `obj_bar`, your subsequent call can include `ending_before=obj_bar` in order to fetch the previous page of the list.
    pub ending_before: Option<Id>,
    /// Specifies which fields in the response should be expanded.
    pub expand: &'a [&'a str],
    /// if present, only return the account default or non-default configurations.
    pub is_account_default: Option<bool>,
    /// A limit on the number of objects to be returned.
    ///
    /// Limit can range between 1 and 100, and the default is 10.
    pub limit: Option<u64>,
    /// A cursor for use in pagination.
    ///
    /// `starting_after` is an object ID that defines your place in the list.
    /// For instance, if you make a list request and receive 100 objects, ending with `obj_foo`, your subsequent call can include `starting_after=obj_foo` in order to fetch the next page of the list.
    pub starting_after: Option<Id>,
}

#[derive(Clone, Debug, Default)]
pub struct CreateTerminalConfigurationBbposWiseposE {
    /// A File ID representing an image to display on the reader.
    pub splashscreen: Option<String>,
}

#[derive(Clone, Debug, Default)]
pub struct CreateTerminalConfigurationOffline {
    /// Determines whether to allow transactions to be collected while reader is offline.
    ///
    /// Defaults to false.
    pub enabled: bool,
}

#[derive(Clone, Debug, Default)]
pub struct CreateTerminalConfigurationRebootWindow {
    /// Integer between 0 to 23 that represents the end hour of the reboot time window.
    ///
    /// The value must be different than the start_hour.
    pub end_hour: i64,
    /// Integer between 0 to 23 that represents the start hour of the reboot time window.
    pub start_hour: i64,
}

#[derive(Clone, Debug, Default)]
pub struct CreateTerminalConfigurationStripeS700 {
    /// A File ID representing an image you would like displayed on the reader.
    pub splashscreen: Option<String>,
}

#[derive(Clone, Debug, Default)]
pub struct CreateTerminalConfigurationTipping {
    /// Tipping configuration for AUD.
    pub aud: Option<CreateTerminalConfigurationTippingAud>,
    /// Tipping configuration for CAD.
    pub cad: Option<CreateTerminalConfigurationTippingCad>,
    /// Tipping configuration for CHF.
    pub chf: Option<CreateTerminalConfigurationTippingChf>,
    /// Tipping configuration for CZK.
    pub czk: Option<CreateTerminalConfigurationTippingCzk>,
    /// Tipping configuration for DKK.
    pub dkk: Option<CreateTerminalConfigurationTippingDkk>,
    /// Tipping configuration for EUR.
    pub eur: Option<CreateTerminalConfigurationTippingEur>,
    /// Tipping configuration for GBP.
    pub gbp: Option<CreateTerminalConfigurationTippingGbp>,
    /// Tipping configuration for HKD.
    pub hkd: Option<CreateTerminalConfigurationTippingHkd>,
    /// Tipping configuration for JPY.
    pub jpy: Option<CreateTerminalConfigurationTippingJpy>,
    /// Tipping configuration for MYR.
    pub myr: Option<CreateTerminalConfigurationTippingMyr>,
    /// Tipping configuration for NOK.
    pub nok: Option<CreateTerminalConfigurationTippingNok>,
    /// Tipping configuration for NZD.
    pub nzd: Option<CreateTerminalConfigurationTippingNzd>,
    /// Tipping configuration for PLN.
    pub pln: Option<CreateTerminalConfigurationTippingPln>,
    /// Tipping configuration for SEK.
    pub sek: Option<CreateTerminalConfigurationTippingSek>,
    /// Tipping configuration for SGD.
    pub sgd: Option<CreateTerminalConfigurationTippingSgd>,
    /// Tipping configuration for USD.
    pub usd: Option<CreateTerminalConfigurationTippingUsd>,
}

#[derive(Clone, Debug, Default)]
pub struct CreateTerminalConfigurationVerifoneP400 {
    /// A File ID representing an image you would like displayed on the reader.
    pub splashscreen: Option<String>,
}

#[derive(Clone, Debug, Default)]
pub struct CreateTerminalConfigurationWifi {
    /// Credentials for a WPA-Enterprise WiFi network using the EAP-PEAP authentication method.
    pub enterprise_eap_peap: Option<CreateTerminalConfigurationWifiEnterpriseEapPeap>,
    /// Credentials for a WPA-Enterprise WiFi network using the EAP-TLS authentication method.
    pub enterprise_eap_tls: Option<CreateTerminalConfigurationWifiEnterpriseEapTls>,
    /// Credentials for a WPA-Personal WiFi network.
    pub personal_psk: Option<CreateTerminalConfigurationWifiPersonalPsk>,
    /// Security type of the WiFi network.
    ///
    /// Fill out the hash with the corresponding name to provide the set of credentials for this security type.
    pub type_: CreateTerminalConfigurationWifiType,
}

#[derive(Clone, Debug, Default)]
pub struct CreateTerminalConfigurationTippingAud {
    /// Fixed amounts displayed when collecting a tip.
    pub fixed_amounts: Option<Vec<i64>>,
    /// Percentages displayed when collecting a tip.
    pub percentages: Option<Vec<i64>>,
    /// Below this amount, fixed amounts will be displayed; above it, percentages will be displayed.
    pub smart_tip_threshold: Option<i64>,
}

#[derive(Clone, Debug, Default)]
pub struct CreateTerminalConfigurationTippingCad {
    /// Fixed amounts displayed when collecting a tip.
    pub fixed_amounts: Option<Vec<i64>>,
    /// Percentages displayed when collecting a tip.
    pub percentages: Option<Vec<i64>>,
    /// Below this amount, fixed amounts will be displayed; above it, percentages will be displayed.
    pub smart_tip_threshold: Option<i64>,
}

#[derive(Clone, Debug, Default)]
pub struct CreateTerminalConfigurationTippingChf {
    /// Fixed amounts displayed when collecting a tip.
    pub fixed_amounts: Option<Vec<i64>>,
    /// Percentages displayed when collecting a tip.
    pub percentages: Option<Vec<i64>>,
    /// Below this amount, fixed amounts will be displayed; above it, percentages will be displayed.
    pub smart_tip_threshold: Option<i64>,
}

#[derive(Clone, Debug, Default)]
pub struct CreateTerminalConfigurationTippingCzk {
    /// Fixed amounts displayed when collecting a tip.
    pub fixed_amounts: Option<Vec<i64>>,
    /// Percentages displayed when collecting a tip.
    pub percentages: Option<Vec<i64>>,
    /// Below this amount, fixed amounts will be displayed; above it, percentages will be displayed.
    pub smart_tip_threshold: Option<i64>,
}

#[derive(Clone, Debug, Default)]
pub struct CreateTerminalConfigurationTippingDkk {
    /// Fixed amounts displayed when collecting a tip.
    pub fixed_amounts: Option<Vec<i64>>,
    /// Percentages displayed when collecting a tip.
    pub percentages: Option<Vec<i64>>,
    /// Below this amount, fixed amounts will be displayed; above it, percentages will be displayed.
    pub smart_tip_threshold: Option<i64>,
}

#[derive(Clone, Debug, Default)]
pub struct CreateTerminalConfigurationTippingEur {
    /// Fixed amounts displayed when collecting a tip.
    pub fixed_amounts: Option<Vec<i64>>,
    /// Percentages displayed when collecting a tip.
    pub percentages: Option<Vec<i64>>,
    /// Below this amount, fixed amounts will be displayed; above it, percentages will be displayed.
    pub smart_tip_threshold: Option<i64>,
}

#[derive(Clone, Debug, Default)]
pub struct CreateTerminalConfigurationTippingGbp {
    /// Fixed amounts displayed when collecting a tip.
    pub fixed_amounts: Option<Vec<i64>>,
    /// Percentages displayed when collecting a tip.
    pub percentages: Option<Vec<i64>>,
    /// Below this amount, fixed amounts will be displayed; above it, percentages will be displayed.
    pub smart_tip_threshold: Option<i64>,
}

#[derive(Clone, Debug, Default)]
pub struct CreateTerminalConfigurationTippingHkd {
    /// Fixed amounts displayed when collecting a tip.
    pub fixed_amounts: Option<Vec<i64>>,
    /// Percentages displayed when collecting a tip.
    pub percentages: Option<Vec<i64>>,
    /// Below this amount, fixed amounts will be displayed; above it, percentages will be displayed.
    pub smart_tip_threshold: Option<i64>,
}

#[derive(Clone, Debug, Default)]
pub struct CreateTerminalConfigurationTippingJpy {
    /// Fixed amounts displayed when collecting a tip.
    pub fixed_amounts: Option<Vec<i64>>,
    /// Percentages displayed when collecting a tip.
    pub percentages: Option<Vec<i64>>,
    /// Below this amount, fixed amounts will be displayed; above it, percentages will be displayed.
    pub smart_tip_threshold: Option<i64>,
}

#[derive(Clone, Debug, Default)]
pub struct CreateTerminalConfigurationTippingMyr {
    /// Fixed amounts displayed when collecting a tip.
    pub fixed_amounts: Option<Vec<i64>>,
    /// Percentages displayed when collecting a tip.
    pub percentages: Option<Vec<i64>>,
    /// Below this amount, fixed amounts will be displayed; above it, percentages will be displayed.
    pub smart_tip_threshold: Option<i64>,
}

#[derive(Clone, Debug, Default)]
pub struct CreateTerminalConfigurationTippingNok {
    /// Fixed amounts displayed when collecting a tip.
    pub fixed_amounts: Option<Vec<i64>>,
    /// Percentages displayed when collecting a tip.
    pub percentages: Option<Vec<i64>>,
    /// Below this amount, fixed amounts will be displayed; above it, percentages will be displayed.
    pub smart_tip_threshold: Option<i64>,
}

#[derive(Clone, Debug, Default)]
pub struct CreateTerminalConfigurationTippingNzd {
    /// Fixed amounts displayed when collecting a tip.
    pub fixed_amounts: Option<Vec<i64>>,
    /// Percentages displayed when collecting a tip.
    pub percentages: Option<Vec<i64>>,
    /// Below this amount, fixed amounts will be displayed; above it, percentages will be displayed.
    pub smart_tip_threshold: Option<i64>,
}

#[derive(Clone, Debug, Default)]
pub struct CreateTerminalConfigurationTippingPln {
    /// Fixed amounts displayed when collecting a tip.
    pub fixed_amounts: Option<Vec<i64>>,
    /// Percentages displayed when collecting a tip.
    pub percentages: Option<Vec<i64>>,
    /// Below this amount, fixed amounts will be displayed; above it, percentages will be displayed.
    pub smart_tip_threshold: Option<i64>,
}

#[derive(Clone, Debug, Default)]
pub struct CreateTerminalConfigurationTippingSek {
    /// Fixed amounts displayed when collecting a tip.
    pub fixed_amounts: Option<Vec<i64>>,
    /// Percentages displayed when collecting a tip.
    pub percentages: Option<Vec<i64>>,
    /// Below this amount, fixed amounts will be displayed; above it, percentages will be displayed.
    pub smart_tip_threshold: Option<i64>,
}

#[derive(Clone, Debug, Default)]
pub struct CreateTerminalConfigurationTippingSgd {
    /// Fixed amounts displayed when collecting a tip.
    pub fixed_amounts: Option<Vec<i64>>,
    /// Percentages displayed when collecting a tip.
    pub percentages: Option<Vec<i64>>,
    /// Below this amount, fixed amounts will be displayed; above it, percentages will be displayed.
    pub smart_tip_threshold: Option<i64>,
}

#[derive(Clone, Debug, Default)]
pub struct CreateTerminalConfigurationTippingUsd {
    /// Fixed amounts displayed when collecting a tip.
    pub fixed_amounts: Option<Vec<i64>>,
    /// Percentages displayed when collecting a tip.
    pub percentages: Option<Vec<i64>>,
    /// Below this amount, fixed amounts will be displayed; above it, percentages will be displayed.
    pub smart_tip_threshold: Option<i64>,
}

#[derive(Clone, Debug, Default)]
pub struct CreateTerminalConfigurationWifiEnterpriseEapPeap {
    /// A File ID representing a PEM file containing the server certificate.
    pub ca_certificate_file: Option<String>,
    /// Password for connecting to the WiFi network.
    pub password: String,
    /// Name of the WiFi network.
    pub ssid: String,
    /// Username for connecting to the WiFi network.
    pub username: String,
}

#[derive(Clone, Debug, Default)]
pub struct CreateTerminalConfigurationWifiEnterpriseEapTls {
    /// A File ID representing a PEM file containing the server certificate.
    pub ca_certificate_file: Option<String>,
    /// A File ID representing a PEM file containing the client certificate.
    pub client_certificate_file: String,
    /// A File ID representing a PEM file containing the client RSA private key.
    pub private_key_file: String,
    /// Password for the private key file.
    pub private_key_file_password: Option<String>,
    /// Name of the WiFi network.
    pub ssid: String,
}

#[derive(Clone, Debug, Default)]
pub struct CreateTerminalConfigurationWifiPersonalPsk {
    /// Password for connecting to the WiFi network.
    pub password: String,
    /// Name of the WiFi network.
    pub ssid: String,
}

/// An enum representing the possible values of an `CreateTerminalConfigurationWifi`'s `type` field.
#[derive(Copy, Clone, Debug, Eq, PartialEq)]
pub enum CreateTerminalConfigurationWifiType {
    EnterpriseEapPeap,
    EnterpriseEapTls,
    PersonalPsk,
}

/// An enum representing the possible values of an `TerminalConfigurationConfigurationResourceWifiConfig`'s `type` field.
#[derive(Copy, Clone, Debug, Eq, PartialEq)]
pub enum TerminalConfigurationConfigurationResourceWifiConfigType {
    EnterpriseEapPeap,
    EnterpriseEapTls,
    PersonalPsk,
}

impl<'a> CreateTerminalConfiguration<'a> {
    /// The parameters that set nothing.
    pub fn new() -> (params: Self)
        ensures
            params.bbpos_wisepos_e is None,
            params.expand@.len() == 0,
            params.name is None,
            params.offline is None,
            params.reboot_window is None,
            params.stripe_s700 is None,
            params.tipping is None,
            params.verifone_p400 is None,
            params.wifi is None,
    {
        CreateTerminalConfiguration {
            bbpos_wisepos_e: None,
            expand: &[],
            name: None,
            offline: None,
            reboot_window: None,
            stripe_s700: None,
            tipping: None,
            verifone_p400: None,
            wifi: None,
        }
    }
}

impl<'a> ListTerminalConfigurations<'a> {
    /// The parameters that ask for the first page of every configuration.
    pub fn new() -> (params: Self)
        ensures
            params.ending_before is None,
            params.expand@.len() == 0,
            params.is_account_default is None,
            params.limit is None,
            params.starting_after is None,
    {
        ListTerminalConfigurations {
            ending_before: None,
            expand: &[],
            is_account_default: None,
            limit: None,
            starting_after: None,
        }
    }

    /// Moves the cursor behind the configuration `last`, the last one of
    /// the page before.
    pub fn set_last(&mut self, last: Id)
        ensures
            final(self).starting_after == Some(last),
            final(self).ending_before == old(self).ending_before,
            final(self).expand == old(self).expand,
            final(self).is_account_default == old(self).is_account_default,
            final(self).limit == old(self).limit,
    {
        self.starting_after = Some(last);
    }
}

impl CreateTerminalConfigurationWifiType {
    /// The name of the security type as the API writes it.
    pub fn as_str(self) -> (name: &'static str)
        ensures
            name@ == (match self {
                CreateTerminalConfigurationWifiType::EnterpriseEapPeap => "enterprise_eap_peap"@,
                CreateTerminalConfigurationWifiType::EnterpriseEapTls => "enterprise_eap_tls"@,
                CreateTerminalConfigurationWifiType::PersonalPsk => "personal_psk"@,
            }),
    {
        match self {
            CreateTerminalConfigurationWifiType::EnterpriseEapPeap => "enterprise_eap_peap",
            CreateTerminalConfigurationWifiType::EnterpriseEapTls => "enterprise_eap_tls",
            CreateTerminalConfigurationWifiType::PersonalPsk => "personal_psk",
        }
    }
}

impl Default for CreateTerminalConfigurationWifiType {
    fn default() -> (r: Self)
        ensures
            r is EnterpriseEapPeap,
    {
        CreateTerminalConfigurationWifiType::EnterpriseEapPeap
    }
}

impl TerminalConfigurationConfigurationResourceWifiConfigType {
    /// The name of the security type as the API writes it.
    pub fn as_str(self) -> (name: &'static str)
        ensures
            name@ == (match self {
                TerminalConfigurationConfigurationResourceWifiConfigType::EnterpriseEapPeap => "enterprise_eap_peap"@,
                TerminalConfigurationConfigurationResourceWifiConfigType::EnterpriseEapTls => "enterprise_eap_tls"@,
                TerminalConfigurationConfigurationResourceWifiConfigType::PersonalPsk => "personal_psk"@,
            }),
    {
        match self {
            TerminalConfigurationConfigurationResourceWifiConfigType::EnterpriseEapPeap => {
                "enterprise_eap_peap"
            },
            TerminalConfigurationConfigurationResourceWifiConfigType::EnterpriseEapTls => {
                "enterprise_eap_tls"
            },
            TerminalConfigurationConfigurationResourceWifiConfigType::PersonalPsk => "personal_psk",
        }
    }
}

impl Default for TerminalConfigurationConfigurationResourceWifiConfigType {
    fn default() -> (r: Self)
        ensures
            r is EnterpriseEapPeap,
    {
        TerminalConfigurationConfigurationResourceWifiConfigType::EnterpriseEapPeap
    }
}

} // verus!
