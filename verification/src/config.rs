//! The gateway's configuration: the checked cross-references between
//! structures, rooms, users and permissions, the derived base URL, and
//! the generation of fresh signing secrets. Reading the file itself is
//! I/O and happens outside this crate.

use vstd::prelude::*;
use crate::text::{dec_str_of, format_i128, str_eq};
use crate::user::User;

verus! {

/// A building or site that rooms belong to.
#[derive(Clone, Debug, PartialEq, Eq)]
pub struct Structure {
    /// The unique id.
    pub id: String,
    /// The display name.
    pub name: String,
}

/// A room of a structure.
#[derive(Clone, Debug, PartialEq, Eq)]
pub struct Room {
    /// The unique id.
    pub id: String,
    /// The structure the room belongs to.
    pub structure_id: String,
    /// The display name.
    pub name: String,
}

/// A user's access to a structure.
#[derive(Clone, Debug, PartialEq, Eq)]
pub struct Permission {
    /// The structure granted.
    pub structure_id: String,
    /// The user granted access.
    pub user_id: String,
    /// Whether the user manages the structure.
    pub is_manager: bool,
}

/// The keys requests and tokens are signed with.
#[derive(Clone, Debug, PartialEq, Eq)]
pub struct Secrets {
    /// Key used to sign refresh tokens.
    pub refresh_key: String,
    /// Key used to sign access tokens.
    pub access_key: String,
    /// Key used to sign authorization codes.
    pub authorization_code_key: String,
}

/// The cloud project the gateway fulfills for.
#[derive(Clone, Debug, PartialEq, Eq)]
pub struct Google {
    /// The client id the cloud calls with.
    pub client_id: String,
    /// The secret the cloud authenticates with.
    pub client_secret: String,
    /// The cloud project id.
    pub project_id: String,
    /// Where the reporting credentials lie.
    pub credentials_file: String,
    /// The minimum time between two re-sync requests, in seconds.
    pub request_sync_rate_limit_seconds: u64,
}

/// The login identity provider.
#[derive(Clone, Debug, PartialEq, Eq)]
pub struct GoogleLogin {
    /// The client id identifying the gateway to the provider.
    pub client_id: String,
}

/// The login options on offer.
#[derive(Clone, Debug, PartialEq, Eq)]
pub struct Logins {
    /// The provider-backed login, when configured.
    pub google: Option<GoogleLogin>,
}

/// Where the plain listener binds, and how the gateway is reached.
#[derive(Clone, Debug, PartialEq, Eq)]
pub struct Network {
    /// The listen address.
    pub address: String,
    /// The listen port.
    pub port: u16,
    /// The public base URL, when it differs from the listener.
    pub base_url: Option<String>,
}

impl Default for Network {
    /// The local listener on the default port.
    fn default() -> (r: Network)
        ensures
            r.address@ == "127.0.0.1"@,
            r.port == 6001,
            r.base_url is None,
    {
        Network { address: "127.0.0.1".to_owned(), port: server_port(), base_url: None }
    }
}

/// Where the TLS listener binds and its key material lies.
#[derive(Clone, Debug, PartialEq, Eq)]
pub struct Tls {
    /// The listen address.
    pub address: String,
    /// The listen port.
    pub port: u16,
    /// Where the certificate lies.
    pub certificate: String,
    /// Where the private key lies.
    pub private_key: String,
}

/// The gateway's whole configuration.
#[derive(Clone, Debug, PartialEq, Eq)]
pub struct Config {
    /// The plain listener.
    pub network: Network,
    /// The signing keys.
    pub secrets: Secrets,
    /// The TLS listener, when configured.
    pub tls: Option<Tls>,
    /// The cloud project, when configured.
    pub google: Option<Google>,
    /// The login options.
    pub logins: Logins,
    /// The structures.
    pub structures: Vec<Structure>,
    /// The rooms.
    pub rooms: Vec<Room>,
    /// The users.
    pub users: Vec<User>,
    /// The per-structure permissions.
    pub permissions: Vec<Permission>,
}

/// The default plain listen port.
pub fn server_port() -> (r: u16)
    ensures
        r == 6001,
{
    6001
}

/// The default TLS listen port.
pub fn server_port_tls() -> (r: u16)
    ensures
        r == 6002,
{
    6002
}

/// Whether some structure of the list carries the id.
pub open spec fn spec_has_structure(structures: Seq<Structure>, id: Seq<char>) -> bool {
    exists|j: int| 0 <= j < structures.len() && (#[trigger] structures[j]).id@ == id
}

/// Whether some user of the list carries the id.
pub open spec fn spec_has_user(users: Seq<User>, id: Seq<char>) -> bool {
    exists|j: int| 0 <= j < users.len() && (#[trigger] users[j]).id@ == id
}

/// The first room whose structure reference dangles.
pub open spec fn first_bad_room(c: Config, i: int) -> Option<int>
    decreases c.rooms@.len() - i,
{
    if i < 0 || i >= c.rooms@.len() {
        None
    } else if !spec_has_structure(c.structures@, c.rooms@[i].structure_id@) {
        Some(i)
    } else {
        first_bad_room(c, i + 1)
    }
}

/// The first permission whose structure or user reference dangles; true
/// marks a dangling structure, false a dangling user.
pub open spec fn first_bad_permission(c: Config, i: int) -> Option<(int, bool)>
    decreases c.permissions@.len() - i,
{
    if i < 0 || i >= c.permissions@.len() {
        None
    } else if !spec_has_structure(c.structures@, c.permissions@[i].structure_id@) {
        Some((i, true))
    } else if !spec_has_user(c.users@, c.permissions@[i].user_id@) {
        Some((i, false))
    } else {
        first_bad_permission(c, i + 1)
    }
}

/// What a configuration check can find wrong.
#[derive(Clone, Debug, PartialEq, Eq)]
pub enum ValidationError {
    /// A room names a structure that does not exist.
    UnknownRoomStructure {
        /// The dangling structure reference.
        structure_id: String,
        /// The room that carries it.
        room_id: String,
    },
    /// A permission names a structure that does not exist.
    UnknownPermissionStructure {
        /// The dangling structure reference.
        structure_id: String,
        /// The user of the permission.
        user_id: String,
    },
    /// A permission names a user that does not exist.
    UnknownPermissionUser {
        /// The structure of the permission.
        structure_id: String,
        /// The dangling user reference.
        user_id: String,
    },
}

/// Whether some structure of the list carries the id.
fn has_structure(structures: &Vec<Structure>, id: &str) -> (r: bool)
    ensures
        r == spec_has_structure(structures@, id@),
{
    let n = structures.len();
    let mut i: usize = 0;
    while i < n
        invariant
            i <= n == structures@.len(),
            forall|k: int| 0 <= k < i ==> (#[trigger] structures@[k]).id@ != id@,
        decreases n - i,
    {
        if str_eq(structures[i].id.as_str(), id) {
            return true;
        }
        i = i + 1;
    }
    false
}

/// Whether some user of the list carries the id.
fn has_user(users: &Vec<User>, id: &str) -> (r: bool)
    ensures
        r == spec_has_user(users@, id@),
{
    let n = users.len();
    let mut i: usize = 0;
    while i < n
        invariant
            i <= n == users@.len(),
            forall|k: int| 0 <= k < i ==> (#[trigger] users@[k]).id@ != id@,
        decreases n - i,
    {
        if str_eq(users[i].id.as_str(), id) {
            return true;
        }
        i = i + 1;
    }
    false
}

impl Config {
    /// Checks the cross-references of the configuration: every room's
    /// structure must exist, and every permission's structure and user
    /// must exist. The error names the first dangling reference, rooms
    /// first.
    pub fn validate(&self) -> (r: Result<(), ValidationError>)
        ensures
            r is Ok <==> (first_bad_room(*self, 0) is None && first_bad_permission(
                *self,
                0,
            ) is None),
            match r {
                Ok(()) => true,
                Err(e) => match e {
                    ValidationError::UnknownRoomStructure { structure_id, room_id } => {
                        &&& first_bad_room(*self, 0) matches Some(i)
                        &&& structure_id@ == self.rooms@[i].structure_id@
                        &&& room_id@ == self.rooms@[i].id@
                    },
                    ValidationError::UnknownPermissionStructure { structure_id, user_id } => {
                        &&& first_bad_room(*self, 0) is None
                        &&& first_bad_permission(*self, 0) matches Some((i, kind))
                        &&& kind
                        &&& structure_id@ == self.permissions@[i].structure_id@
                        &&& user_id@ == self.permissions@[i].user_id@
                    },
                    ValidationError::UnknownPermissionUser { structure_id, user_id } => {
                        &&& first_bad_room(*self, 0) is None
                        &&& first_bad_permission(*self, 0) matches Some((i, kind))
                        &&& !kind
                        &&& structure_id@ == self.permissions@[i].structure_id@
                        &&& user_id@ == self.permissions@[i].user_id@
                    },
                },
            },
    {
        let n = self.rooms.len();
        let mut i: usize = 0;
        while i < n
            invariant
                i <= n == self.rooms@.len(),
                first_bad_room(*self, 0) == first_bad_room(*self, i as int),
            decreases n - i,
        {
            let room = &self.rooms[i];
            if !has_structure(&self.structures, room.structure_id.as_str()) {
                return Err(
                    ValidationError::UnknownRoomStructure {
                        structure_id: room.structure_id.clone(),
                        room_id: room.id.clone(),
                    },
                );
            }
            i = i + 1;
        }
        let m = self.permissions.len();
        let mut j: usize = 0;
        while j < m
            invariant
                j <= m == self.permissions@.len(),
                first_bad_room(*self, 0) is None,
                first_bad_permission(*self, 0) == first_bad_permission(*self, j as int),
            decreases m - j,
        {
            let permission = &self.permissions[j];
            if !has_structure(&self.structures, permission.structure_id.as_str()) {
                return Err(
                    ValidationError::UnknownPermissionStructure {
                        structure_id: permission.structure_id.clone(),
                        user_id: permission.user_id.clone(),
                    },
                );
            }
            if !has_user(&self.users, permission.user_id.as_str()) {
                return Err(
                    ValidationError::UnknownPermissionUser {
                        structure_id: permission.structure_id.clone(),
                        user_id: permission.user_id.clone(),
                    },
                );
            }
            j = j + 1;
        }
        Ok(())
    }

    /// Looks a user up by id.
    pub fn get_user(&self, user_id: &str) -> (r: Option<&User>)
        ensures
            match r {
                Some(u) => spec_find_user(self.users@, user_id@) == Some(*u),
                None => spec_find_user(self.users@, user_id@) is None,
            },
    {
        let n = self.users.len();
        let mut i: usize = 0;
        proof {
            assert(self.users@.skip(0) =~= self.users@);
        }
        while i < n
            invariant
                i <= n == self.users@.len(),
                spec_find_user(self.users@, user_id@) == spec_find_user(
                    self.users@.skip(i as int),
                    user_id@,
                ),
            decreases n - i,
        {
            proof {
                assert(self.users@.skip(i as int)[0] == self.users@[i as int]);
                assert(self.users@.skip(i as int).skip(1) =~= self.users@.skip(i + 1));
            }
            if str_eq(self.users[i].id.as_str(), user_id) {
                return Some(&self.users[i]);
            }
            i = i + 1;
        }
        None
    }

    /// Looks a user up by email.
    pub fn get_user_by_email(&self, user_email: &str) -> (r: Option<&User>)
        ensures
            match r {
                Some(u) => spec_find_user_by_email(self.users@, user_email@) == Some(*u),
                None => spec_find_user_by_email(self.users@, user_email@) is None,
            },
    {
        let n = self.users.len();
        let mut i: usize = 0;
        proof {
            assert(self.users@.skip(0) =~= self.users@);
        }
        while i < n
            invariant
                i <= n == self.users@.len(),
                spec_find_user_by_email(self.users@, user_email@) == spec_find_user_by_email(
                    self.users@.skip(i as int),
                    user_email@,
                ),
            decreases n - i,
        {
            proof {
                assert(self.users@.skip(i as int)[0] == self.users@[i as int]);
                assert(self.users@.skip(i as int).skip(1) =~= self.users@.skip(i + 1));
            }
            if str_eq(self.users[i].email.as_str(), user_email) {
                return Some(&self.users[i]);
            }
            i = i + 1;
        }
        None
    }

    /// Looks a room up by id.
    pub fn get_room(&self, room_id: &str) -> (r: Option<&Room>)
        ensures
            match r {
                Some(rm) => spec_find_room(self.rooms@, room_id@) == Some(*rm),
                None => spec_find_room(self.rooms@, room_id@) is None,
            },
    {
        let n = self.rooms.len();
        let mut i: usize = 0;
        proof {
            assert(self.rooms@.skip(0) =~= self.rooms@);
        }
        while i < n
            invariant
                i <= n == self.rooms@.len(),
                spec_find_room(self.rooms@, room_id@) == spec_find_room(
                    self.rooms@.skip(i as int),
                    room_id@,
                ),
            decreases n - i,
        {
            proof {
                assert(self.rooms@.skip(i as int)[0] == self.rooms@[i as int]);
                assert(self.rooms@.skip(i as int).skip(1) =~= self.rooms@.skip(i + 1));
            }
            if str_eq(self.rooms[i].id.as_str(), room_id) {
                return Some(&self.rooms[i]);
            }
            i = i + 1;
        }
        None
    }

    /// The public base URL of the gateway: the configured one, or one
    /// derived from the TLS listener when there is one, else from the
    /// plain listener.
    pub fn get_base_url(&self) -> (r: String)
        ensures
            r@ == spec_base_url(*self),
    {
        match &self.network.base_url {
            Some(u) => u.clone(),
            None => {
                let (scheme, address, port): (&str, &String, u16) = match &self.tls {
                    Some(tls) => ("https", &tls.address, tls.port),
                    None => ("http", &self.network.address, self.network.port),
                };
                let mut url = scheme.to_owned();
                url.append("://");
                url.append(address.as_str());
                url.append(":");
                let port_str = format_i128(port as i128);
                url.append(port_str.as_str());
                url
            },
        }
    }
}

/// The first user of the list with the id.
pub open spec fn spec_find_user(users: Seq<User>, id: Seq<char>) -> Option<User>
    decreases users.len(),
{
    if users.len() == 0 {
        None
    } else if users[0].id@ == id {
        Some(users[0])
    } else {
        spec_find_user(users.skip(1), id)
    }
}

/// The first user of the list with the email.
pub open spec fn spec_find_user_by_email(users: Seq<User>, email: Seq<char>) -> Option<User>
    decreases users.len(),
{
    if users.len() == 0 {
        None
    } else if users[0].email@ == email {
        Some(users[0])
    } else {
        spec_find_user_by_email(users.skip(1), email)
    }
}

/// The first room of the list with the id.
pub open spec fn spec_find_room(rooms: Seq<Room>, id: Seq<char>) -> Option<Room>
    decreases rooms.len(),
{
    if rooms.len() == 0 {
        None
    } else if rooms[0].id@ == id {
        Some(rooms[0])
    } else {
        spec_find_room(rooms.skip(1), id)
    }
}

/// The base URL a configuration denotes.
pub open spec fn spec_base_url(c: Config) -> Seq<char> {
    match c.network.base_url {
        Some(u) => u@,
        None => match c.tls {
            Some(tls) => "https"@ + "://"@ + tls.address@ + ":"@ + dec_str_of(tls.port as int),
            None => "http"@ + "://"@ + c.network.address@ + ":"@ + dec_str_of(
                c.network.port as int,
            ),
        },
    }
}

/// The lowercase hexadecimal digit for `d` (meaningful for
/// `0 <= d <= 15`).
pub open spec fn hex_digit(d: int) -> char {
    if d < 10 {
        crate::text::digit_char(d)
    } else if d == 10 { 'a' }
    else if d == 11 { 'b' }
    else if d == 12 { 'c' }
    else if d == 13 { 'd' }
    else if d == 14 { 'e' }
    else { 'f' }
}

/// The lowercase hexadecimal encoding of a byte string: two digits per
/// byte, high digit first.
pub open spec fn hex_of(bytes: Seq<u8>) -> Seq<char>
    decreases bytes.len(),
{
    if bytes.len() == 0 {
        Seq::empty()
    } else {
        hex_of(bytes.drop_last()) + seq![
            hex_digit(bytes.last() as int / 16),
            hex_digit(bytes.last() as int % 16),
        ]
    }
}

/// Relies on `hex::encode`: the lowercase hexadecimal encoding, two
/// digits per byte, high digit first.
#[verifier::external_body]
fn hex_encode(bytes: &[u8; 32]) -> (r: String)
    ensures
        r@ == hex_of(bytes@),
{
    hex::encode(bytes)
}

/// Builds fresh signing secrets from three 32-byte draws of entropy,
/// each encoded as 64 hexadecimal digits. The caller supplies the
/// randomness; this fixes what is made of it.
pub fn secrets_from_entropy(refresh: [u8; 32], access: [u8; 32], code: [u8; 32]) -> (r: Secrets)
    ensures
        r.refresh_key@ == hex_of(refresh@),
        r.access_key@ == hex_of(access@),
        r.authorization_code_key@ == hex_of(code@),
{
    Secrets {
        refresh_key: hex_encode(&refresh),
        access_key: hex_encode(&access),
        authorization_code_key: hex_encode(&code),
    }
}

} // verus!
