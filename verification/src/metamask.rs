//! The spend permission as the wallet provider grants it: its lifecycle,
//! the allowance left on it, and the mode of trading that the allowance
//! calls for.

use vstd::prelude::*;
use vstd::string::StringExecFns;

verus! {

/// Seconds in a day.
pub const DAY_SECS: u64 = 86_400;

/// A permission to spend up to a daily limit of a token.
#[derive(Debug)]
pub struct PermissionGrant {
    pub permission_id: String,
    pub token: String,
    pub daily_limit: u64,
    pub spent_today: u64,
    pub expires_at: u64,
    pub granted_at: u64,
    pub revoked: bool,
}

/// State of the connection to the wallet provider.
#[derive(Debug, Clone, Copy, PartialEq, Eq, Structural)]
pub enum ConnectionStatus {
    Disconnected,
    Connecting,
    Connected,
    PermissionPending,
    PermissionGranted,
    PermissionDenied,
}

/// How boldly to trade, given the share of the allowance that is left.
#[derive(Debug, Clone, Copy, PartialEq, Eq, Structural)]
pub enum StrategyMode {
    /// Less than three tenths left: only trades with a high edge.
    Conservative,
    /// Between three and seven tenths left.
    Normal,
    /// More than seven tenths left: trade more often.
    Aggressive,
}

/// What the agent is doing.
#[derive(Debug, Clone, Copy, PartialEq, Eq, Structural)]
pub enum AgentStatus {
    Idle,
    Running,
    SafeMode,
    PermissionExpired,
}

/// What can go wrong with the wallet provider.
#[derive(Debug)]
pub enum MetaMaskError {
    NotConnected,
    NoPermission,
    PermissionRevoked,
    PermissionExpired,
    PermissionDenied,
    InsufficientAllowance,
    TransactionFailed(String),
    ConnectionFailed(String),
}

impl Clone for PermissionGrant {
    fn clone(&self) -> (r: Self)
        ensures
            r == *self,
    {
        PermissionGrant {
            permission_id: self.permission_id.clone(),
            token: self.token.clone(),
            daily_limit: self.daily_limit,
            spent_today: self.spent_today,
            expires_at: self.expires_at,
            granted_at: self.granted_at,
            revoked: self.revoked,
        }
    }
}

impl Clone for MetaMaskError {
    fn clone(&self) -> (r: Self)
        ensures
            r == *self,
    {
        match self {
            MetaMaskError::NotConnected => MetaMaskError::NotConnected,
            MetaMaskError::NoPermission => MetaMaskError::NoPermission,
            MetaMaskError::PermissionRevoked => MetaMaskError::PermissionRevoked,
            MetaMaskError::PermissionExpired => MetaMaskError::PermissionExpired,
            MetaMaskError::PermissionDenied => MetaMaskError::PermissionDenied,
            MetaMaskError::InsufficientAllowance => MetaMaskError::InsufficientAllowance,
            MetaMaskError::TransactionFailed(msg) => MetaMaskError::TransactionFailed(msg.clone()),
            MetaMaskError::ConnectionFailed(msg) => MetaMaskError::ConnectionFailed(msg.clone()),
        }
    }
}

impl MetaMaskError {
    /// The error in words.
    pub open spec fn text(&self) -> Seq<char> {
        match self {
            MetaMaskError::NotConnected => "MetaMask not connected"@,
            MetaMaskError::NoPermission => "No permission granted"@,
            MetaMaskError::PermissionRevoked => "Permission has been revoked"@,
            MetaMaskError::PermissionExpired => "Permission has expired"@,
            MetaMaskError::PermissionDenied => "User denied permission request"@,
            MetaMaskError::InsufficientAllowance => "Insufficient daily allowance"@,
            MetaMaskError::TransactionFailed(msg) => "Transaction failed: "@ + msg@,
            MetaMaskError::ConnectionFailed(msg) => "Connection failed: "@ + msg@,
        }
    }

    /// The error in words.
    pub fn message(&self) -> (message: String)
        ensures
            message@ == self.text(),
    {
        match self {
            MetaMaskError::NotConnected => "MetaMask not connected".to_owned(),
            MetaMaskError::NoPermission => "No permission granted".to_owned(),
            MetaMaskError::PermissionRevoked => "Permission has been revoked".to_owned(),
            MetaMaskError::PermissionExpired => "Permission has expired".to_owned(),
            MetaMaskError::PermissionDenied => "User denied permission request".to_owned(),
            MetaMaskError::InsufficientAllowance => "Insufficient daily allowance".to_owned(),
            MetaMaskError::TransactionFailed(msg) => "Transaction failed: ".to_owned().concat(
                msg.as_str(),
            ),
            MetaMaskError::ConnectionFailed(msg) => "Connection failed: ".to_owned().concat(
                msg.as_str(),
            ),
        }
    }
}

/// The character for a digit of value `n`, up to fifteen: `0` to `9`, then
/// `a` to `f`.
pub open spec fn digit(n: int) -> char {
    seq!['0', '1', '2', '3', '4', '5', '6', '7', '8', '9', 'a', 'b', 'c', 'd', 'e', 'f'][n]
}

/// Two lower-case hexadecimal digits for each byte, high digit first.
pub open spec fn hex_digits(bytes: Seq<u8>) -> Seq<char>
    decreases bytes.len(),
{
    if bytes.len() == 0 {
        Seq::empty()
    } else {
        hex_digits(bytes.drop_last()).push(digit(bytes.last() as int / 16)).push(
            digit(bytes.last() as int % 16),
        )
    }
}

/// The decimal digits of a number, without leading zeros.
pub open spec fn decimal_digits(n: nat) -> Seq<char>
    decreases n,
{
    if n < 10 {
        seq![digit(n as int)]
    } else {
        decimal_digits(n / 10).push(digit((n % 10) as int))
    }
}

/// `hex::encode`: the bytes as lower-case hexadecimal text, two digits per
/// byte, in order.
#[verifier::external_body]
fn hex_encode(bytes: &Vec<u8>) -> (text: String)
    ensures
        text@ == hex_digits(bytes@),
{
    hex::encode(bytes)
}

/// The standard library's formatting of an unsigned integer: its decimal
/// digits, without sign, padding or leading zeros.
#[verifier::external_body]
fn decimal(n: u64) -> (text: String)
    ensures
        text@ == decimal_digits(n as nat),
{
    format!("{}", n)
}

/// The bytes of the address that stands in for a real account.
pub open spec fn demo_address_bytes() -> Seq<u8> {
    seq![
        0xDEu8,
        0xADu8,
        0xBEu8,
        0xEFu8,
        0x00u8,
        0x01u8,
        0x02u8,
        0x03u8,
        0x04u8,
        0x05u8,
        0x06u8,
        0x07u8,
        0x08u8,
        0x09u8,
        0x0Au8,
        0x0Bu8,
        0x0Cu8,
        0x0Du8,
        0x0Eu8,
        0x0Fu8,
    ]
}

/// Whether a permission can be requested in this status: the client is
/// connected, and may have marked the request as under way.
pub open spec fn can_request(status: ConnectionStatus) -> bool {
    status == ConnectionStatus::Connected || status == ConnectionStatus::PermissionPending
}

/// What is left of a grant's daily limit; nothing where more than the limit
/// is on record as spent.
pub open spec fn remaining_of(grant: PermissionGrant) -> u64 {
    if grant.spent_today >= grant.daily_limit {
        0
    } else {
        (grant.daily_limit - grant.spent_today) as u64
    }
}

/// The mode that the share `remaining / daily_limit` calls for. With no
/// limit at all the share is undefined and the mode is normal.
pub open spec fn mode_for(remaining: u64, daily_limit: u64) -> StrategyMode {
    if remaining * 10 < 3 * daily_limit {
        StrategyMode::Conservative
    } else if remaining * 10 > 7 * daily_limit {
        StrategyMode::Aggressive
    } else {
        StrategyMode::Normal
    }
}

/// What recording a spend of `amount` at `now` against `grant` comes to.
pub open spec fn spend_outcome(
    grant: PermissionGrant,
    amount: u64,
    now: u64,
) -> Result<PermissionGrant, MetaMaskError> {
    if grant.revoked {
        Err(MetaMaskError::PermissionRevoked)
    } else if grant.expires_at < now {
        Err(MetaMaskError::PermissionExpired)
    } else if grant.spent_today + amount > grant.daily_limit {
        Err(MetaMaskError::InsufficientAllowance)
    } else {
        Ok(PermissionGrant { spent_today: (grant.spent_today + amount) as u64, ..grant })
    }
}

/// What a client holds.
pub struct ClientState {
    pub status: ConnectionStatus,
    pub permission: Option<PermissionGrant>,
    pub wallet_address: Option<String>,
    pub snap_id: String,
}

/// Client of the wallet provider. It follows the life of a spend
/// permission: connect, request, spend against it, revoke.
#[derive(Debug)]
pub struct MetaMaskClient {
    status: ConnectionStatus,
    permission: Option<PermissionGrant>,
    wallet_address: Option<String>,
    snap_id: String,
}

impl View for MetaMaskClient {
    type V = ClientState;

    closed spec fn view(&self) -> ClientState {
        ClientState {
            status: self.status,
            permission: self.permission,
            wallet_address: self.wallet_address,
            snap_id: self.snap_id,
        }
    }
}

impl MetaMaskClient {
    /// A client that is not connected and holds no permission.
    pub fn new() -> (client: Self)
        ensures
            client@.status == ConnectionStatus::Disconnected,
            client@.permission is None,
            client@.wallet_address is None,
            client@.snap_id@ == "npm:polyshark-metamask-snap"@,
    {
        Self {
            status: ConnectionStatus::Disconnected,
            permission: None,
            wallet_address: None,
            snap_id: "npm:polyshark-metamask-snap".to_owned(),
        }
    }

    pub fn get_status(&self) -> (status: ConnectionStatus)
        ensures
            status == self@.status,
    {
        self.status
    }

    /// Whether a permission is held that is neither revoked nor, at `now`,
    /// expired.
    pub fn has_valid_permission(&self, now: u64) -> (valid: bool)
        ensures
            valid == match self@.permission {
                Some(grant) => !grant.revoked && grant.expires_at > now,
                None => false,
            },
    {
        match &self.permission {
            Some(grant) => !grant.revoked && grant.expires_at > now,
            None => false,
        }
    }

    /// What is left of the daily limit; nothing without a permission.
    pub fn get_remaining_allowance(&self) -> (remaining: u64)
        ensures
            remaining == match self@.permission {
                Some(grant) => remaining_of(grant),
                None => 0,
            },
    {
        match &self.permission {
            Some(grant) => if grant.spent_today >= grant.daily_limit {
                0
            } else {
                grant.daily_limit - grant.spent_today
            },
            None => 0,
        }
    }

    /// The permission held, if any.
    pub fn get_permission(&self) -> (permission: Option<PermissionGrant>)
        ensures
            permission == self@.permission,
    {
        match &self.permission {
            Some(grant) => Some(grant.clone()),
            None => None,
        }
    }

    /// The mode that the allowance left calls for; normal without a
    /// permission.
    pub fn get_strategy_mode(&self) -> (mode: StrategyMode)
        ensures
            mode == match self@.permission {
                Some(grant) => mode_for(remaining_of(grant), grant.daily_limit),
                None => StrategyMode::Normal,
            },
    {
        match &self.permission {
            Some(grant) => {
                let remaining: u128 = if grant.spent_today >= grant.daily_limit {
                    0
                } else {
                    (grant.daily_limit - grant.spent_today) as u128
                };
                let limit = grant.daily_limit as u128;
                if remaining * 10 < 3 * limit {
                    StrategyMode::Conservative
                } else if remaining * 10 > 7 * limit {
                    StrategyMode::Aggressive
                } else {
                    StrategyMode::Normal
                }
            },
            None => StrategyMode::Normal,
        }
    }

    /// What the agent is doing at `now`: idle without a permission or with a
    /// revoked one, expired where the permission has run out, running
    /// otherwise.
    pub fn get_agent_status(&self, now: u64) -> (status: AgentStatus)
        ensures
            status == match self@.permission {
                Some(grant) => if grant.revoked {
                    AgentStatus::Idle
                } else if grant.expires_at < now {
                    AgentStatus::PermissionExpired
                } else {
                    AgentStatus::Running
                },
                None => AgentStatus::Idle,
            },
    {
        match &self.permission {
            Some(grant) => {
                if grant.revoked {
                    AgentStatus::Idle
                } else if grant.expires_at < now {
                    AgentStatus::PermissionExpired
                } else {
                    AgentStatus::Running
                }
            },
            None => AgentStatus::Idle,
        }
    }

    /// Takes over a permission granted elsewhere.
    pub fn set_permission(&mut self, grant: PermissionGrant)
        ensures
            final(self)@ == (ClientState {
                status: ConnectionStatus::PermissionGranted,
                permission: Some(grant),
                ..old(self)@
            }),
    {
        self.permission = Some(grant);
        self.status = ConnectionStatus::PermissionGranted;
    }

    /// Marks the connection as under way.
    pub fn begin_connect(&mut self)
        ensures
            final(self)@ == (ClientState { status: ConnectionStatus::Connecting, ..old(self)@ }),
    {
        self.status = ConnectionStatus::Connecting;
    }

    /// Connects, and returns the account's address: `0x` and the
    /// hexadecimal digits of its twenty bytes.
    pub fn connect(&mut self) -> (address: Result<String, MetaMaskError>)
        ensures
            address matches Ok(text) && text@ == "0x"@ + hex_digits(demo_address_bytes())
                && final(self)@ == (ClientState {
                status: ConnectionStatus::Connected,
                wallet_address: Some(text),
                ..old(self)@
            }),
    {
        let bytes: Vec<u8> = vec![
            0xDE,
            0xAD,
            0xBE,
            0xEF,
            0x00,
            0x01,
            0x02,
            0x03,
            0x04,
            0x05,
            0x06,
            0x07,
            0x08,
            0x09,
            0x0A,
            0x0B,
            0x0C,
            0x0D,
            0x0E,
            0x0F,
        ];
        assert(bytes@ =~= demo_address_bytes());
        let address = "0x".to_owned().concat(hex_encode(&bytes).as_str());
        self.wallet_address = Some(address.clone());
        self.status = ConnectionStatus::Connected;
        Ok(address)
    }

    /// Marks a request for permission as under way, and says whether it
    /// could be: only a connected client can ask. The status is
    /// [`ConnectionStatus::PermissionPending`] until the request is
    /// answered.
    pub fn begin_request(&mut self) -> (ok: bool)
        ensures
            ok == (old(self)@.status == ConnectionStatus::Connected),
            final(self)@ == (if ok {
                ClientState { status: ConnectionStatus::PermissionPending, ..old(self)@ }
            } else {
                old(self)@
            }),
    {
        match self.status {
            ConnectionStatus::Connected => {
                self.status = ConnectionStatus::PermissionPending;
                true
            },
            _ => false,
        }
    }

    /// Requests a permission to spend up to `daily_limit` of `token` a day
    /// for `duration_days` days from `now`. The client must be connected,
    /// with or without the request marked as under way. The permission is
    /// granted, held, and returned.
    pub fn request_permission(
        &mut self,
        token: &str,
        daily_limit: u64,
        duration_days: u32,
        now: u64,
    ) -> (granted: Result<PermissionGrant, MetaMaskError>)
        ensures
            !can_request(old(self)@.status) ==> granted == Err::<PermissionGrant, MetaMaskError>(
                MetaMaskError::NotConnected,
            ) && final(self)@ == old(self)@,
            can_request(old(self)@.status) ==> (granted matches Ok(grant) && {
                &&& grant.permission_id@ == "perm_"@ + decimal_digits(now as nat)
                &&& grant.token@ == token@
                &&& grant.daily_limit == daily_limit
                &&& grant.spent_today == 0
                &&& grant.expires_at as int == crate::fixed::clamp_u64(
                    now + duration_days * DAY_SECS,
                )
                &&& grant.granted_at == now
                &&& !grant.revoked
                &&& final(self)@ == (ClientState {
                    status: ConnectionStatus::PermissionGranted,
                    permission: Some(grant),
                    ..old(self)@
                })
            }),
    {
        match self.status {
            ConnectionStatus::Connected => {},
            ConnectionStatus::PermissionPending => {},
            _ => {
                return Err(MetaMaskError::NotConnected);
            },
        }
        let lifetime: u64 = duration_days as u64 * DAY_SECS;
        let grant = PermissionGrant {
            permission_id: "perm_".to_owned().concat(decimal(now).as_str()),
            token: token.to_owned(),
            daily_limit,
            spent_today: 0,
            expires_at: if lifetime > u64::MAX - now {
                u64::MAX
            } else {
                now + lifetime
            },
            granted_at: now,
            revoked: false,
        };
        self.permission = Some(grant.clone());
        self.status = ConnectionStatus::PermissionGranted;
        Ok(grant)
    }

    /// Records a spend of `amount` at `now` against the permission. The
    /// spend is refused, and nothing recorded, without a permission, on a
    /// revoked or expired one, and where it would take the day's spend past
    /// the limit.
    pub fn record_spend(&mut self, amount: u64, now: u64) -> (outcome: Result<(), MetaMaskError>)
        ensures
            match old(self)@.permission {
                None => outcome == Err::<(), MetaMaskError>(MetaMaskError::NoPermission)
                    && final(self)@ == old(self)@,
                Some(grant) => match spend_outcome(grant, amount, now) {
                    Ok(charged) => outcome is Ok && final(self)@ == (ClientState {
                        permission: Some(charged),
                        ..old(self)@
                    }),
                    Err(e) => outcome == Err::<(), MetaMaskError>(e) && final(self)@ == old(
                        self,
                    )@,
                },
            },
    {
        let mut grant = match &self.permission {
            Some(grant) => grant.clone(),
            None => {
                return Err(MetaMaskError::NoPermission);
            },
        };
        if grant.revoked {
            return Err(MetaMaskError::PermissionRevoked);
        }
        if grant.expires_at < now {
            return Err(MetaMaskError::PermissionExpired);
        }
        if amount > grant.daily_limit || grant.spent_today > grant.daily_limit - amount {
            return Err(MetaMaskError::InsufficientAllowance);
        }
        grant.spent_today = grant.spent_today + amount;
        self.permission = Some(grant);
        Ok(())
    }

    /// Clears the day's spend on the permission.
    pub fn reset_daily_spend(&mut self)
        ensures
            final(self)@ == (ClientState {
                permission: match old(self)@.permission {
                    Some(grant) => Some(PermissionGrant { spent_today: 0, ..grant }),
                    None => None,
                },
                ..old(self)@
            }),
    {
        match &self.permission {
            Some(grant) => {
                let mut cleared = grant.clone();
                cleared.spent_today = 0;
                self.permission = Some(cleared);
            },
            None => {},
        }
    }

    /// Revokes the permission. The client stays connected.
    pub fn revoke_permission(&mut self) -> (outcome: Result<(), MetaMaskError>)
        ensures
            match old(self)@.permission {
                Some(grant) => outcome is Ok && final(self)@ == (ClientState {
                    status: ConnectionStatus::Connected,
                    permission: Some(PermissionGrant { revoked: true, ..grant }),
                    ..old(self)@
                }),
                None => outcome == Err::<(), MetaMaskError>(MetaMaskError::NoPermission)
                    && final(self)@ == old(self)@,
            },
    {
        match &self.permission {
            Some(grant) => {
                let mut revoked = grant.clone();
                revoked.revoked = true;
                self.permission = Some(revoked);
                self.status = ConnectionStatus::Connected;
                Ok(())
            },
            None => Err(MetaMaskError::NoPermission),
        }
    }

    /// Disconnects, and forgets the permission and the address.
    pub fn disconnect(&mut self)
        ensures
            final(self)@ == (ClientState {
                status: ConnectionStatus::Disconnected,
                permission: None,
                wallet_address: None,
                ..old(self)@
            }),
    {
        self.permission = None;
        self.wallet_address = None;
        self.status = ConnectionStatus::Disconnected;
    }
}

impl Default for MetaMaskClient {
    fn default() -> (client: Self)
        ensures
            client@.status == ConnectionStatus::Disconnected,
            client@.permission is None,
            client@.wallet_address is None,
    {
        Self::new()
    }
}

} // verus!
