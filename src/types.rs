use vstd::prelude::*;

verus! {

/// Which contracts deployed by an in-scope account are covered too.
#[derive(Clone, Copy, Debug, PartialEq, Eq, Structural)]
pub enum ChildContractScope {
    /// No child contract is in scope.
    NoChildren,
    ExistingOnly,
    All,
    FutureOnly,
}

impl Default for ChildContractScope {
    fn default() -> (r: Self)
        ensures
            r == ChildContractScope::NoChildren,
    {
        ChildContractScope::NoChildren
    }
}

/// How much a whitehat must reveal of their identity to claim a bounty.
#[derive(Clone, Copy, Debug, PartialEq, Eq, Structural)]
pub enum IdentityRequirements {
    Anonymous,
    Pseudonymous,
    Named,
}

impl Default for IdentityRequirements {
    fn default() -> (r: Self)
        ensures
            r == IdentityRequirements::Anonymous,
    {
        IdentityRequirements::Anonymous
    }
}

/// A named way to reach the protocol's security team.
#[derive(Debug)]
pub struct Contact {
    pub name: String,
    pub contact: String,
}

impl Clone for Contact {
    fn clone(&self) -> (r: Self)
        ensures
            r == *self,
    {
        Contact { name: self.name.clone(), contact: self.contact.clone() }
    }
}

/// One account in scope of a network, with the reach of its child contracts.
#[derive(Debug)]
pub struct AccountInScope {
    pub account_address: String,
    pub child_contract_scope: ChildContractScope,
}

impl Clone for AccountInScope {
    fn clone(&self) -> (r: Self)
        ensures
            r == *self,
    {
        AccountInScope {
            account_address: self.account_address.clone(),
            child_contract_scope: self.child_contract_scope,
        }
    }
}

/// The agreement's policy for one network: where recovered assets go and
/// which accounts are in scope.
#[derive(Debug)]
pub struct Chain {
    pub asset_recovery_address: String,
    pub accounts: Vec<AccountInScope>,
    pub caip2_chain_id: String,
}

/// A network scope as a value: its accounts as a sequence.
pub struct ChainView {
    pub asset_recovery_address: String,
    pub accounts: Seq<AccountInScope>,
    pub caip2_chain_id: String,
}

impl View for Chain {
    type V = ChainView;

    open spec fn view(&self) -> ChainView {
        ChainView {
            asset_recovery_address: self.asset_recovery_address,
            accounts: self.accounts@,
            caip2_chain_id: self.caip2_chain_id,
        }
    }
}

pub open spec fn chains_view(s: Seq<Chain>) -> Seq<ChainView> {
    s.map_values(|c: Chain| c@)
}

/// Copies a list of accounts, entry by entry.
pub fn clone_accounts(v: &Vec<AccountInScope>) -> (r: Vec<AccountInScope>)
    ensures
        r@ == v@,
{
    let mut r: Vec<AccountInScope> = Vec::new();
    let mut i: usize = 0;
    while i < v.len()
        invariant
            0 <= i <= v.len(),
            r@ == v@.subrange(0, i as int),
        decreases v.len() - i,
    {
        r.push(v[i].clone());
        i += 1;
    }
    assert(r@ =~= v@);
    r
}

impl Clone for Chain {
    fn clone(&self) -> (r: Self)
        ensures
            r@ == self@,
    {
        Chain {
            asset_recovery_address: self.asset_recovery_address.clone(),
            accounts: clone_accounts(&self.accounts),
            caip2_chain_id: self.caip2_chain_id.clone(),
        }
    }
}

/// Copies a list of network scopes, entry by entry.
pub fn clone_chains(v: &Vec<Chain>) -> (r: Vec<Chain>)
    ensures
        chains_view(r@) == chains_view(v@),
{
    let mut r: Vec<Chain> = Vec::new();
    let mut i: usize = 0;
    while i < v.len()
        invariant
            0 <= i <= v.len(),
            r@.len() == i,
            forall|j: int| 0 <= j < i ==> #[trigger] r@[j]@ == v@[j]@,
        decreases v.len() - i,
    {
        let c = v[i].clone();
        r.push(c);
        i += 1;
    }
    assert(chains_view(r@) =~= chains_view(v@));
    r
}

/// Copies a list of strings, entry by entry.
pub fn clone_strings(v: &Vec<String>) -> (r: Vec<String>)
    ensures
        r@ == v@,
{
    let mut r: Vec<String> = Vec::new();
    let mut i: usize = 0;
    while i < v.len()
        invariant
            0 <= i <= v.len(),
            r@ == v@.subrange(0, i as int),
        decreases v.len() - i,
    {
        r.push(v[i].clone());
        i += 1;
    }
    assert(r@ =~= v@);
    r
}

/// Copies a list of contacts, entry by entry.
pub fn clone_contacts(v: &Vec<Contact>) -> (r: Vec<Contact>)
    ensures
        r@ == v@,
{
    let mut r: Vec<Contact> = Vec::new();
    let mut i: usize = 0;
    while i < v.len()
        invariant
            0 <= i <= v.len(),
            r@ == v@.subrange(0, i as int),
        decreases v.len() - i,
    {
        r.push(v[i].clone());
        i += 1;
    }
    assert(r@ =~= v@);
    r
}

/// The terms on which a whitehat may keep a bounty.
#[derive(Debug)]
pub struct BountyTerms {
    pub bounty_percentage: u64,
    pub bounty_cap_usd: u64,
    pub retainable: bool,
    pub identity: IdentityRequirements,
    pub diligence_requirements: String,
    pub aggregate_bounty_cap_usd: u64,
}

impl Clone for BountyTerms {
    fn clone(&self) -> (r: Self)
        ensures
            r == *self,
    {
        BountyTerms {
            bounty_percentage: self.bounty_percentage,
            bounty_cap_usd: self.bounty_cap_usd,
            retainable: self.retainable,
            identity: self.identity,
            diligence_requirements: self.diligence_requirements.clone(),
            aggregate_bounty_cap_usd: self.aggregate_bounty_cap_usd,
        }
    }
}

/// An aggregate cap and retainability exclude each other.
pub open spec fn bounty_terms_consistent(t: BountyTerms) -> bool {
    !(t.aggregate_bounty_cap_usd > 0 && t.retainable)
}

/// What an agreement is created from; also what a reader gets back of one.
#[derive(Debug)]
pub struct AgreementInitParams {
    pub protocol_name: String,
    pub contact_details: Vec<Contact>,
    pub chains: Vec<Chain>,
    pub bounty_terms: BountyTerms,
    pub agreement_uri: String,
}

pub struct AgreementInitParamsView {
    pub protocol_name: String,
    pub contact_details: Seq<Contact>,
    pub chains: Seq<ChainView>,
    pub bounty_terms: BountyTerms,
    pub agreement_uri: String,
}

impl View for AgreementInitParams {
    type V = AgreementInitParamsView;

    open spec fn view(&self) -> AgreementInitParamsView {
        AgreementInitParamsView {
            protocol_name: self.protocol_name,
            contact_details: self.contact_details@,
            chains: chains_view(self.chains@),
            bounty_terms: self.bounty_terms,
            agreement_uri: self.agreement_uri,
        }
    }
}

} // verus!
