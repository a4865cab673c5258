//! The daemon's data that crosses the Java boundary: what the conversions
//! read of it, held as plain values, each with its mathematical model
//! (its `deep_view`).
use vstd::prelude::*;

verus! {

/// Account data: the account's expiry instant, as whole seconds since the
/// Unix epoch and the nanoseconds past that second (the two numbers that
/// identify a UTC instant).
#[derive(Debug, Clone, Copy, PartialEq, Eq)]
pub struct AccountData {
    pub expiry_secs: i64,
    pub expiry_nanos: u32,
}

impl DeepView for AccountData {
    type V = AccountData;

    open spec fn deep_view(&self) -> AccountData {
        *self
    }
}

/// A relay server, known by its host name.
#[derive(Debug, Clone, PartialEq, Eq)]
pub struct Relay {
    pub hostname: String,
}

pub struct RelayModel {
    pub hostname: Seq<char>,
}

impl DeepView for Relay {
    type V = RelayModel;

    open spec fn deep_view(&self) -> RelayModel {
        RelayModel { hostname: self.hostname@ }
    }
}

/// A city of the relay list, with its relays.
#[derive(Debug, Clone, PartialEq, Eq)]
pub struct RelayListCity {
    pub name: String,
    pub code: String,
    pub relays: Vec<Relay>,
}

pub struct RelayListCityModel {
    pub name: Seq<char>,
    pub code: Seq<char>,
    pub relays: Seq<RelayModel>,
}

impl DeepView for RelayListCity {
    type V = RelayListCityModel;

    open spec fn deep_view(&self) -> RelayListCityModel {
        RelayListCityModel {
            name: self.name@,
            code: self.code@,
            relays: self.relays.deep_view(),
        }
    }
}

/// A country of the relay list, with its cities.
#[derive(Debug, Clone, PartialEq, Eq)]
pub struct RelayListCountry {
    pub name: String,
    pub code: String,
    pub cities: Vec<RelayListCity>,
}

pub struct RelayListCountryModel {
    pub name: Seq<char>,
    pub code: Seq<char>,
    pub cities: Seq<RelayListCityModel>,
}

impl DeepView for RelayListCountry {
    type V = RelayListCountryModel;

    open spec fn deep_view(&self) -> RelayListCountryModel {
        RelayListCountryModel {
            name: self.name@,
            code: self.code@,
            cities: self.cities.deep_view(),
        }
    }
}

/// The list of relay locations.
#[derive(Debug, Clone, PartialEq, Eq)]
pub struct RelayList {
    pub countries: Vec<RelayListCountry>,
}

pub struct RelayListModel {
    pub countries: Seq<RelayListCountryModel>,
}

impl DeepView for RelayList {
    type V = RelayListModel;

    open spec fn deep_view(&self) -> RelayListModel {
        RelayListModel { countries: self.countries.deep_view() }
    }
}

/// Either no restriction (`Any`) or exactly the given value (`Only`).
#[derive(Debug, Clone, PartialEq, Eq)]
pub enum Constraint<T> {
    Any,
    Only(T),
}

impl<T: DeepView> DeepView for Constraint<T> {
    type V = Constraint<T::V>;

    open spec fn deep_view(&self) -> Constraint<T::V> {
        match self {
            Constraint::Any => Constraint::Any,
            Constraint::Only(t) => Constraint::Only(t.deep_view()),
        }
    }
}

/// A location to pick relays in: a country, a city of a country, or one
/// relay of a city, each given by its codes.
#[derive(Debug, Clone, PartialEq, Eq)]
pub enum LocationConstraint {
    Country(String),
    City(String, String),
    Hostname(String, String, String),
}

pub enum LocationConstraintModel {
    Country(Seq<char>),
    City(Seq<char>, Seq<char>),
    Hostname(Seq<char>, Seq<char>, Seq<char>),
}

impl DeepView for LocationConstraint {
    type V = LocationConstraintModel;

    open spec fn deep_view(&self) -> LocationConstraintModel {
        match self {
            LocationConstraint::Country(c) => LocationConstraintModel::Country(c@),
            LocationConstraint::City(c, t) => LocationConstraintModel::City(c@, t@),
            LocationConstraint::Hostname(c, t, h) => LocationConstraintModel::Hostname(
                c@,
                t@,
                h@,
            ),
        }
    }
}

/// A tunnel endpoint that the user gave by hand; none of its data crosses
/// the Java boundary.
#[derive(Debug, Clone, Copy, PartialEq, Eq)]
pub struct CustomTunnelEndpoint {}

impl DeepView for CustomTunnelEndpoint {
    type V = CustomTunnelEndpoint;

    open spec fn deep_view(&self) -> CustomTunnelEndpoint {
        *self
    }
}

/// Constraints on the relays to use.
#[derive(Debug, Clone, PartialEq, Eq)]
pub struct RelayConstraints {
    pub location: Constraint<LocationConstraint>,
}

pub struct RelayConstraintsModel {
    pub location: Constraint<LocationConstraintModel>,
}

impl DeepView for RelayConstraints {
    type V = RelayConstraintsModel;

    open spec fn deep_view(&self) -> RelayConstraintsModel {
        RelayConstraintsModel { location: self.location.deep_view() }
    }
}

/// How relays are chosen: a custom endpoint, or by constraints.
#[derive(Debug, Clone, PartialEq, Eq)]
pub enum RelaySettings {
    CustomTunnelEndpoint(CustomTunnelEndpoint),
    Normal(RelayConstraints),
}

pub enum RelaySettingsModel {
    CustomTunnelEndpoint(CustomTunnelEndpoint),
    Normal(RelayConstraintsModel),
}

impl DeepView for RelaySettings {
    type V = RelaySettingsModel;

    open spec fn deep_view(&self) -> RelaySettingsModel {
        match self {
            RelaySettings::CustomTunnelEndpoint(e) => RelaySettingsModel::CustomTunnelEndpoint(*e),
            RelaySettings::Normal(c) => RelaySettingsModel::Normal(c.deep_view()),
        }
    }
}

/// A change of the relay constraints: `None` leaves the location as it is.
#[derive(Debug, Clone, PartialEq, Eq)]
pub struct RelayConstraintsUpdate {
    pub location: Option<Constraint<LocationConstraint>>,
}

pub struct RelayConstraintsUpdateModel {
    pub location: Option<Constraint<LocationConstraintModel>>,
}

impl DeepView for RelayConstraintsUpdate {
    type V = RelayConstraintsUpdateModel;

    open spec fn deep_view(&self) -> RelayConstraintsUpdateModel {
        RelayConstraintsUpdateModel { location: self.location.deep_view() }
    }
}

/// A change of the relay settings.
#[derive(Debug, Clone, PartialEq, Eq)]
pub enum RelaySettingsUpdate {
    CustomTunnelEndpoint(CustomTunnelEndpoint),
    Normal(RelayConstraintsUpdate),
}

pub enum RelaySettingsUpdateModel {
    CustomTunnelEndpoint(CustomTunnelEndpoint),
    Normal(RelayConstraintsUpdateModel),
}

impl DeepView for RelaySettingsUpdate {
    type V = RelaySettingsUpdateModel;

    open spec fn deep_view(&self) -> RelaySettingsUpdateModel {
        match self {
            RelaySettingsUpdate::CustomTunnelEndpoint(e) => RelaySettingsUpdateModel::CustomTunnelEndpoint(*e),
            RelaySettingsUpdate::Normal(u) => RelaySettingsUpdateModel::Normal(u.deep_view()),
        }
    }
}

/// The daemon's settings that the app shows: the account token, if any,
/// and the relay settings.
#[derive(Debug, Clone, PartialEq, Eq)]
pub struct Settings {
    pub account_token: Option<String>,
    pub relay_settings: RelaySettings,
}

pub struct SettingsModel {
    pub account_token: Option<Seq<char>>,
    pub relay_settings: RelaySettingsModel,
}

impl DeepView for Settings {
    type V = SettingsModel;

    open spec fn deep_view(&self) -> SettingsModel {
        SettingsModel {
            account_token: self.account_token.deep_view(),
            relay_settings: self.relay_settings.deep_view(),
        }
    }
}

/// A change of the tunnel's state, by the state entered.
#[derive(Debug, Clone, Copy, PartialEq, Eq)]
pub enum TunnelStateTransition {
    Disconnected,
    Connecting,
    Connected,
    Disconnecting,
    Blocked,
}

impl DeepView for TunnelStateTransition {
    type V = TunnelStateTransition;

    open spec fn deep_view(&self) -> TunnelStateTransition {
        *self
    }
}

} // verus!
