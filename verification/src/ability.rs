//! The optional protocol features that a client declares at setup.

use vstd::prelude::*;

verus! {

#[derive(Clone, Copy, Debug, PartialEq, Eq, Structural)]
pub struct ClientRemoteAbility {
    pub support_remote_connection: bool,
}

#[derive(Clone, Copy, Debug, PartialEq, Eq, Structural)]
pub struct ClientConfigAbility {
    pub support_remote_metrics: bool,
}

#[derive(Clone, Copy, Debug, PartialEq, Eq, Structural)]
pub struct ClientNamingAbility {
    pub support_delta_push: bool,
    pub support_remote_metric: bool,
}

#[derive(Clone, Copy, Debug, PartialEq, Eq, Structural)]
pub struct ClientAbilities {
    pub remote_ability: ClientRemoteAbility,
    pub config_ability: ClientConfigAbility,
    pub naming_ability: ClientNamingAbility,
}

/// What a client declares unless told otherwise: remote connections and
/// remote config metrics, no naming features.
pub open spec fn default_abilities() -> ClientAbilities {
    ClientAbilities {
        remote_ability: ClientRemoteAbility { support_remote_connection: true },
        config_ability: ClientConfigAbility { support_remote_metrics: true },
        naming_ability: ClientNamingAbility {
            support_delta_push: false,
            support_remote_metric: false,
        },
    }
}

impl Default for ClientAbilities {
    fn default() -> (a: Self)
        ensures
            a == default_abilities(),
    {
        ClientAbilities {
            remote_ability: ClientRemoteAbility { support_remote_connection: true },
            config_ability: ClientConfigAbility { support_remote_metrics: true },
            naming_ability: ClientNamingAbility {
                support_delta_push: false,
                support_remote_metric: false,
            },
        }
    }
}

} // verus!
