//! The stored configuration and the store that holds its single copy.

use vstd::prelude::*;
use crate::error::ContractError;
use crate::text::opt_text;
use crate::whitelist::{
    lemma_with_inserts, lemma_without_deletes, other_than, spec_with, spec_without,
};

verus! {

/// The configuration of one instance.
#[derive(Debug, PartialEq, Eq)]
pub struct Config {
    /// The only account that may change the whitelist or the admin wallet.
    pub owner: String,
    /// The wallet that receives every accepted deposit.
    pub admin_wallet: String,
    /// The token contracts accepted for deposit.
    pub whitelist: Vec<String>,
}

/// A configuration as plain text values.
pub struct ConfigView {
    pub owner: Seq<char>,
    pub admin_wallet: Seq<char>,
    pub whitelist: Seq<Seq<char>>,
}

/// The texts of a list of addresses, in order.
pub open spec fn addresses(list: Seq<String>) -> Seq<Seq<char>> {
    list.map_values(|a: String| a@)
}

impl ConfigView {
    /// No token contract is listed twice.
    pub open spec fn wf(self) -> bool {
        self.whitelist.no_duplicates()
    }

    /// The set of whitelisted token contracts.
    pub open spec fn tokens(self) -> Set<Seq<char>> {
        self.whitelist.to_set()
    }

    /// The configuration with `token` on the whitelist: appended if it was
    /// absent, unchanged if it was there.
    pub open spec fn with_token(self, token: Seq<char>) -> ConfigView {
        ConfigView { whitelist: spec_with(self.whitelist, token), ..self }
    }

    /// The configuration with every entry equal to `token` taken off the
    /// whitelist, the others in their order.
    pub open spec fn without_token(self, token: Seq<char>) -> ConfigView {
        ConfigView { whitelist: spec_without(self.whitelist, token), ..self }
    }

    /// The configuration with `wallet` as admin wallet.
    pub open spec fn with_admin_wallet(self, wallet: Seq<char>) -> ConfigView {
        ConfigView { admin_wallet: wallet, ..self }
    }
}

impl View for Config {
    type V = ConfigView;

    open spec fn view(&self) -> ConfigView {
        ConfigView {
            owner: self.owner@,
            admin_wallet: self.admin_wallet@,
            whitelist: addresses(self.whitelist@),
        }
    }
}

/// Appending an address appends its text.
proof fn lemma_addresses_push(list: Seq<String>, a: String)
    ensures
        addresses(list.push(a)) == addresses(list).push(a@),
{
    assert(addresses(list.push(a)) =~= addresses(list).push(a@));
}

/// A copy of `list` with the same texts.
fn copy_addresses(list: &Vec<String>) -> (copy: Vec<String>)
    ensures
        addresses(copy@) == addresses(list@),
{
    let mut copy: Vec<String> = Vec::new();
    let mut i: usize = 0;
    while i < list.len()
        invariant
            i <= list.len(),
            addresses(copy@) == addresses(list@.take(i as int)),
        decreases list.len() - i,
    {
        proof {
            assert(list@.take(i + 1) == list@.take(i as int).push(list@[i as int]));
            lemma_addresses_push(list@.take(i as int), list@[i as int]);
            lemma_addresses_push(copy@, list@[i as int]);
        }
        copy.push(list[i].clone());
        i += 1;
    }
    assert(list@.take(list@.len() as int) == list@);
    copy
}

/// The entries of `list` that differ from `token`, in their order.
fn addresses_without(list: &Vec<String>, token: &String) -> (kept: Vec<String>)
    ensures
        addresses(kept@) == spec_without(addresses(list@), token@),
{
    let ghost differs = other_than(token@);
    let mut kept: Vec<String> = Vec::new();
    let mut i: usize = 0;
    proof {
        reveal(Seq::filter);
    }
    while i < list.len()
        invariant
            i <= list.len(),
            differs == other_than(token@),
            addresses(kept@) == addresses(list@.take(i as int)).filter(differs),
        decreases list.len() - i,
    {
        proof {
            assert(list@.take(i + 1) == list@.take(i as int).push(list@[i as int]));
            lemma_addresses_push(list@.take(i as int), list@[i as int]);
            lemma_addresses_push(kept@, list@[i as int]);
            addresses(list@.take(i as int)).lemma_filter_push(list@[i as int]@, differs);
        }
        if list[i] != *token {
            kept.push(list[i].clone());
        }
        i += 1;
    }
    assert(list@.take(list@.len() as int) == list@);
    kept
}

impl Clone for Config {
    fn clone(&self) -> (copy: Config)
        ensures
            copy@ == self@,
    {
        Config {
            owner: self.owner.clone(),
            admin_wallet: self.admin_wallet.clone(),
            whitelist: copy_addresses(&self.whitelist),
        }
    }
}

impl Config {
    /// Whether `token` is on the whitelist.
    pub fn is_whitelisted(&self, token: &String) -> (listed: bool)
        ensures
            listed == self@.whitelist.contains(token@),
    {
        let mut i: usize = 0;
        while i < self.whitelist.len()
            invariant
                i <= self.whitelist.len(),
                forall|j: int| 0 <= j < i ==> addresses(self.whitelist@)[j] != token@,
            decreases self.whitelist.len() - i,
        {
            if self.whitelist[i] == *token {
                assert(addresses(self.whitelist@)[i as int] == token@);
                return true;
            }
            i += 1;
        }
        false
    }

    /// Puts `token` on the whitelist. Adding a token that is listed changes
    /// nothing.
    pub fn add_to_whitelist(&mut self, token: String)
        ensures
            final(self)@ == old(self)@.with_token(token@),
            old(self)@.wf() ==> final(self)@.wf(),
    {
        proof {
            lemma_with_inserts(self@.whitelist, token@);
        }
        if !self.is_whitelisted(&token) {
            proof {
                lemma_addresses_push(self.whitelist@, token);
            }
            self.whitelist.push(token);
        }
    }

    /// Takes `token` off the whitelist. Removing a token that is not listed
    /// changes nothing.
    pub fn remove_from_whitelist(&mut self, token: &String)
        ensures
            final(self)@ == old(self)@.without_token(token@),
            old(self)@.wf() ==> final(self)@.wf(),
    {
        let kept = addresses_without(&self.whitelist, token);
        proof {
            lemma_without_deletes(self@.whitelist, token@);
        }
        self.whitelist = kept;
    }
}

/// The place where an instance keeps its configuration: empty until the
/// configuration is created, and holding exactly one from then on.
#[derive(Debug, PartialEq, Eq)]
pub struct ConfigStore {
    pub config: Option<Config>,
}

impl View for ConfigStore {
    type V = Option<ConfigView>;

    open spec fn view(&self) -> Option<ConfigView> {
        match self.config {
            Some(config) => Some(config@),
            None => None,
        }
    }
}

impl ConfigStore {
    /// A store in which nothing has been created yet.
    pub fn new() -> (store: ConfigStore)
        ensures
            store@ is None,
    {
        ConfigStore { config: None }
    }

    /// Creates the configuration, with `owner` as owner, the address that the
    /// host accepted as admin wallet, and an empty whitelist, and returns a
    /// copy of it. Fails with `AlreadyInitialized` if a configuration exists,
    /// else with `InvalidIdentity` if the host accepted no address; the store
    /// then stays as it was.
    pub fn create(&mut self, owner: String, admin_wallet: Option<String>) -> (r: Result<
        Config,
        ContractError,
    >)
        ensures
            match spec_create(old(self)@, owner@, opt_text(admin_wallet)) {
                Ok(config) => r is Ok && r->Ok_0@ == config && final(self)@ == Some(config),
                Err(e) => r is Err && r->Err_0 == e && final(self)@ == old(self)@,
            },
    {
        if self.config.is_some() {
            return Err(ContractError::AlreadyInitialized);
        }
        match admin_wallet {
            None => Err(ContractError::InvalidIdentity),
            Some(admin_wallet) => {
                let whitelist: Vec<String> = Vec::new();
                assert(addresses(whitelist@) =~= Seq::empty());
                let config = Config { owner, admin_wallet, whitelist };
                let created = config.clone();
                self.config = Some(config);
                Ok(created)
            },
        }
    }

    /// A copy of the stored configuration; `Uninitialized` if there is none.
    pub fn load(&self) -> (r: Result<Config, ContractError>)
        ensures
            match r {
                Ok(config) => self@ == Some(config@),
                Err(e) => self@ is None && e == ContractError::Uninitialized,
            },
    {
        match &self.config {
            Some(config) => Ok(config.clone()),
            None => Err(ContractError::Uninitialized),
        }
    }

    /// Stores `config` in place of whatever was stored.
    pub fn save(&mut self, config: Config)
        ensures
            final(self)@ == Some(config@),
    {
        self.config = Some(config);
    }
}

/// What creating a configuration yields: the configuration, or the reason for
/// which none is created.
pub open spec fn spec_create(
    store: Option<ConfigView>,
    owner: Seq<char>,
    admin_wallet: Option<Seq<char>>,
) -> Result<ConfigView, ContractError> {
    if store is Some {
        Err(ContractError::AlreadyInitialized)
    } else {
        match admin_wallet {
            None => Err(ContractError::InvalidIdentity),
            Some(wallet) => Ok(
                ConfigView { owner, admin_wallet: wallet, whitelist: Seq::empty() },
            ),
        }
    }
}

} // verus!
