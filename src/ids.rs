use vstd::prelude::*;

verus! {

/// Our own device: its user, its id and its Ed25519 identity key.
#[derive(Debug, PartialEq, Eq)]
pub struct Account {
    pub user_id: String,
    pub device_id: String,
    /// Unpadded base64 of the Ed25519 identity key.
    pub ed25519_key: String,
}

/// A device of the other user, as the key store knows it.
#[derive(Debug, PartialEq, Eq)]
pub struct Device {
    pub user_id: String,
    pub device_id: String,
    /// Unpadded base64 of the Ed25519 identity key.
    pub ed25519_key: String,
    /// Unpadded base64 of the Curve25519 identity key.
    pub curve25519_key: String,
}

/// The cross-signing identity of the other user.
#[derive(Debug, PartialEq, Eq)]
pub struct UserIdentity {
    pub user_id: String,
    /// Unpadded base64 of the Ed25519 master signing key.
    pub master_key: String,
}

/// Our own cross-signing identity.
#[derive(Debug, PartialEq, Eq)]
pub struct OwnUserIdentity {
    pub user_id: String,
    /// Unpadded base64 of the Ed25519 master signing key.
    pub master_key: String,
    /// Whether we trust our own master key.
    pub verified: bool,
}

/// The parties of a flow: our account, the other device and the two
/// cross-signing identities where they exist.
pub struct SasIds {
    pub account: Account,
    pub other_device: Device,
    pub own_identity: Option<OwnUserIdentity>,
    pub other_identity: Option<UserIdentity>,
}

impl Clone for Account {
    fn clone(&self) -> (r: Self)
        ensures
            r == *self,
    {
        Account {
            user_id: self.user_id.clone(),
            device_id: self.device_id.clone(),
            ed25519_key: self.ed25519_key.clone(),
        }
    }
}

impl Clone for Device {
    fn clone(&self) -> (r: Self)
        ensures
            r == *self,
    {
        Device {
            user_id: self.user_id.clone(),
            device_id: self.device_id.clone(),
            ed25519_key: self.ed25519_key.clone(),
            curve25519_key: self.curve25519_key.clone(),
        }
    }
}

impl Clone for UserIdentity {
    fn clone(&self) -> (r: Self)
        ensures
            r == *self,
    {
        UserIdentity { user_id: self.user_id.clone(), master_key: self.master_key.clone() }
    }
}

impl Clone for OwnUserIdentity {
    fn clone(&self) -> (r: Self)
        ensures
            r == *self,
    {
        OwnUserIdentity {
            user_id: self.user_id.clone(),
            master_key: self.master_key.clone(),
            verified: self.verified,
        }
    }
}

impl Clone for SasIds {
    fn clone(&self) -> (r: Self)
        ensures
            r == *self,
    {
        SasIds {
            account: self.account.clone(),
            other_device: self.other_device.clone(),
            own_identity: match &self.own_identity {
                Some(i) => Some(i.clone()),
                None => None,
            },
            other_identity: match &self.other_identity {
                Some(i) => Some(i.clone()),
                None => None,
            },
        }
    }
}

/// The id of an Ed25519 key: the algorithm, a colon, then the key's name.
pub open spec fn ed25519_key_id(name: Seq<char>) -> Seq<char> {
    "ed25519:"@ + name
}

/// Builds the id of an Ed25519 key from the name it is known under (a device
/// id, or the base64 of a master key).
pub fn ed25519_key_id_of(name: &str) -> (r: String)
    ensures
        r@ == ed25519_key_id(name@),
{
    let mut r = "ed25519:".to_string();
    r.append(name);
    r
}

} // verus!
