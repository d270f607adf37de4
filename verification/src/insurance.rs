//! The insurance registry: who bought insurance and who is covered now.
//!
//! Any account may buy insurance, once at a time: a claim pays the premium
//! that was recorded and ends the coverage, and the account may then buy
//! again. The registry records the account it belongs to, and asks nothing of
//! a caller on that ground. It moves no value and emits nothing itself: what
//! it owes and what it announces is returned to the host.

use vstd::prelude::*;
use crate::account::{AccountId, Balance, DEFAULT_PREMIUM};
use crate::account_map::AccountMap;

verus! {

/// The notification that an account bought insurance, with the amount it
/// offered.
#[derive(Clone, Copy, Debug, PartialEq, Eq)]
pub struct InsurancePurchased {
    pub user: AccountId,
    pub premium: Balance,
}

/// The notification that an account filed a claim, with the amount that is
/// owed to it.
#[derive(Clone, Copy, Debug, PartialEq, Eq)]
pub struct ClaimFiled {
    pub user: AccountId,
    pub amount: Balance,
}

/// Why an operation of the registry was turned down.
#[derive(Clone, Copy, Debug, PartialEq, Eq, Structural)]
pub enum Error {
    /// For a host that restricts who may call; no operation of the registry
    /// returns it.
    NotContractOwner,
    AlreadyHasInsurance,
    NoInsurance,
    NoPremiumProvided,
    /// For a host that moves value; no operation of the registry returns it.
    BalanceTooLow,
}

/// The state of the registry.
pub struct InsuranceView {
    /// The account that the registry belongs to.
    pub owner: AccountId,
    /// The premium recorded for each account that ever bought insurance.
    pub insurance_premiums: Map<AccountId, Balance>,
    /// The coverage flag of each account that ever bought insurance.
    pub has_insurance: Map<AccountId, bool>,
}

impl InsuranceView {
    /// The registry of `owner` with no account.
    pub open spec fn empty(owner: AccountId) -> InsuranceView {
        InsuranceView { owner, insurance_premiums: Map::empty(), has_insurance: Map::empty() }
    }

    /// Whether `user` has ever bought insurance.
    pub open spec fn is_premium(self, user: AccountId) -> bool {
        self.insurance_premiums.contains_key(user)
    }

    /// Whether `user` is covered now.
    pub open spec fn has_insurance(self, user: AccountId) -> bool {
        self.has_insurance.contains_key(user) && self.has_insurance[user]
    }

    /// The premium recorded for `user`; nothing for an account without one.
    pub open spec fn premium_of(self, user: AccountId) -> Balance {
        if self.insurance_premiums.contains_key(user) {
            self.insurance_premiums[user]
        } else {
            0
        }
    }

    /// What holds of every state that the operations can reach: every premium
    /// recorded is the default one, and an account with a coverage flag has a
    /// premium.
    pub open spec fn inv(self) -> bool {
        &&& forall|a: AccountId| #[trigger]
            self.insurance_premiums.contains_key(a) ==> self.insurance_premiums[a]
                == DEFAULT_PREMIUM
        &&& forall|a: AccountId| #[trigger]
            self.has_insurance.contains_key(a) ==> self.insurance_premiums.contains_key(a)
    }

    /// What buying insurance returns.
    ///
    /// An account that is covered is turned away first; then an offer of
    /// nothing. Any other purchase is accepted, whoever the caller is. The
    /// notification carries the amount that was offered.
    pub open spec fn purchase_outcome(self, caller: AccountId, premium: Balance) -> Result<
        InsurancePurchased,
        Error,
    > {
        if self.has_insurance(caller) {
            Err(Error::AlreadyHasInsurance)
        } else if premium == 0 {
            Err(Error::NoPremiumProvided)
        } else {
            Ok(InsurancePurchased { user: caller, premium })
        }
    }

    /// The state after buying insurance: on success the account is covered and
    /// the default premium is recorded for it; otherwise nothing changes.
    pub open spec fn after_purchase(self, caller: AccountId, premium: Balance) -> InsuranceView {
        if self.purchase_outcome(caller, premium) is Ok {
            InsuranceView {
                insurance_premiums: self.insurance_premiums.insert(caller, DEFAULT_PREMIUM),
                has_insurance: self.has_insurance.insert(caller, true),
                ..self
            }
        } else {
            self
        }
    }

    /// What filing a claim returns: for a covered account, the notification
    /// with the premium recorded for it, which is the amount owed.
    pub open spec fn claim_outcome(self, caller: AccountId) -> Result<ClaimFiled, Error> {
        if !self.has_insurance(caller) {
            Err(Error::NoInsurance)
        } else {
            Ok(ClaimFiled { user: caller, amount: self.premium_of(caller) })
        }
    }

    /// The state after filing a claim: on success the account is no longer
    /// covered; otherwise nothing changes.
    pub open spec fn after_claim(self, caller: AccountId) -> InsuranceView {
        if self.claim_outcome(caller) is Ok {
            InsuranceView { has_insurance: self.has_insurance.insert(caller, false), ..self }
        } else {
            self
        }
    }

    /// The empty registry is a valid state.
    pub proof fn lemma_empty_inv(owner: AccountId)
        ensures
            InsuranceView::empty(owner).inv(),
    {
    }

    /// Buying insurance keeps the state valid.
    pub proof fn lemma_purchase_inv(self, caller: AccountId, premium: Balance)
        requires
            self.inv(),
        ensures
            self.after_purchase(caller, premium).inv(),
    {
    }

    /// Filing a claim keeps the state valid.
    pub proof fn lemma_claim_inv(self, caller: AccountId)
        requires
            self.inv(),
        ensures
            self.after_claim(caller).inv(),
    {
    }
}

impl InsuranceView {
    /// After an account offered a premium that is not zero, it is covered,
    /// and buying again fails and changes nothing.
    pub proof fn lemma_purchase_covers(self, account: AccountId, premium: Balance, again: Balance)
        requires
            self.inv(),
            premium > 0,
        ensures
            ({
                let next = self.after_purchase(account, premium);
                &&& next.has_insurance(account)
                &&& next.is_premium(account)
                &&& next.purchase_outcome(account, again) == Err::<InsurancePurchased, Error>(
                    Error::AlreadyHasInsurance,
                )
                &&& next.after_purchase(account, again) == next
            }),
    {
    }

    /// An account that is not covered and offers nothing is told so, and
    /// nothing changes.
    pub proof fn lemma_purchase_for_nothing(self, account: AccountId)
        requires
            !self.has_insurance(account),
        ensures
            self.purchase_outcome(account, 0) == Err::<InsurancePurchased, Error>(
                Error::NoPremiumProvided,
            ),
            self.after_purchase(account, 0) == self,
    {
    }

    /// A purchase that fails changes nothing.
    pub proof fn lemma_refused_purchase_changes_nothing(
        self,
        account: AccountId,
        premium: Balance,
    )
        requires
            self.purchase_outcome(account, premium) is Err,
        ensures
            self.after_purchase(account, premium) == self,
    {
    }

    /// An account that is not covered cannot claim, and its attempt changes
    /// nothing. An account that never bought insurance is such an account.
    pub proof fn lemma_claim_without_coverage(self, account: AccountId)
        requires
            !self.has_insurance(account),
        ensures
            self.claim_outcome(account) == Err::<ClaimFiled, Error>(Error::NoInsurance),
            self.after_claim(account) == self,
    {
    }

    /// A claim right after a purchase succeeds: the amount owed is the
    /// default premium, not the amount that was offered, and the account is
    /// no longer covered, though it still counts as one that bought
    /// insurance. It may then buy again.
    pub proof fn lemma_claim_after_purchase(self, account: AccountId, premium: Balance)
        requires
            self.purchase_outcome(account, premium) is Ok,
        ensures
            ({
                let bought = self.after_purchase(account, premium);
                let claimed = bought.after_claim(account);
                &&& bought.claim_outcome(account) == Ok::<ClaimFiled, Error>(
                    ClaimFiled { user: account, amount: DEFAULT_PREMIUM },
                )
                &&& !claimed.has_insurance(account)
                &&& claimed.is_premium(account)
                &&& claimed.claim_outcome(account) == Err::<ClaimFiled, Error>(Error::NoInsurance)
                &&& claimed.purchase_outcome(account, premium) is Ok
            }),
    {
    }
}

/// The insurance registry.
pub struct Insurance {
    owner: AccountId,
    insurance_premiums: AccountMap<Balance>,
    has_insurance: AccountMap<bool>,
}

impl View for Insurance {
    type V = InsuranceView;

    closed spec fn view(&self) -> InsuranceView {
        InsuranceView {
            owner: self.owner,
            insurance_premiums: self.insurance_premiums@,
            has_insurance: self.has_insurance@,
        }
    }
}

impl Insurance {
    /// The two tables are each well formed.
    pub closed spec fn tables_wf(&self) -> bool {
        &&& self.insurance_premiums.wf()
        &&& self.has_insurance.wf()
    }

    /// The registry is in a valid state.
    pub open spec fn wf(&self) -> bool {
        &&& self.tables_wf()
        &&& self@.inv()
    }

    /// An empty registry that belongs to `owner`.
    pub fn new(owner: AccountId) -> (r: Insurance)
        ensures
            r.wf(),
            r@ == InsuranceView::empty(owner),
    {
        Insurance { owner, insurance_premiums: AccountMap::new(), has_insurance: AccountMap::new() }
    }

    /// The account that the registry belongs to.
    pub fn owner(&self) -> (r: AccountId)
        ensures
            r == self@.owner,
    {
        self.owner
    }

    /// Whether `user` has ever bought insurance.
    pub fn is_premium(&self, user: AccountId) -> (r: bool)
        requires
            self.wf(),
        ensures
            r == self@.is_premium(user),
    {
        self.insurance_premiums.contains(&user)
    }

    /// Whether `user` is covered now.
    pub fn has_insurance(&self, user: AccountId) -> (r: bool)
        requires
            self.wf(),
        ensures
            r == self@.has_insurance(user),
    {
        match self.has_insurance.get(&user) {
            Some(covered) => *covered,
            None => false,
        }
    }

    /// Buys insurance for `caller`, who offers `premium`.
    ///
    /// The premium recorded is the default one, whatever was offered; the
    /// notification returned carries the offer.
    pub fn purchase_insurance(&mut self, caller: AccountId, premium: Balance) -> (r: Result<
        InsurancePurchased,
        Error,
    >)
        requires
            old(self).wf(),
        ensures
            final(self).wf(),
            r == old(self)@.purchase_outcome(caller, premium),
            final(self)@ == old(self)@.after_purchase(caller, premium),
    {
        proof {
            self@.lemma_purchase_inv(caller, premium);
        }
        if self.has_insurance(caller) {
            return Err(Error::AlreadyHasInsurance);
        }
        if premium == 0 {
            return Err(Error::NoPremiumProvided);
        }
        self.insurance_premiums.insert(caller, DEFAULT_PREMIUM);
        self.has_insurance.insert(caller, true);
        Ok(InsurancePurchased { user: caller, premium })
    }

    /// Files a claim for `caller`.
    ///
    /// The registry moves no value: the notification returned names the
    /// amount that is owed to the caller, and the coverage ends.
    pub fn file_claim(&mut self, caller: AccountId) -> (r: Result<ClaimFiled, Error>)
        requires
            old(self).wf(),
        ensures
            final(self).wf(),
            r == old(self)@.claim_outcome(caller),
            final(self)@ == old(self)@.after_claim(caller),
    {
        proof {
            self@.lemma_claim_inv(caller);
        }
        if self.has_insurance(caller) == false {
            return Err(Error::NoInsurance);
        }
        let amount: Balance = match self.insurance_premiums.get(&caller) {
            Some(premium) => *premium,
            None => 0,
        };
        self.has_insurance.insert(caller, false);
        Ok(ClaimFiled { user: caller, amount })
    }
}

} // verus!
