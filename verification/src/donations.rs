//! The donation transition and its value-transfer subsystem: fee split,
//! dual balance transfer, and the per-pair donation log.

use vstd::prelude::*;
use crate::addressing::Address;
use crate::constants::MIN_DONATION_AMOUNT;
use crate::errors::{DonationError, ErrorCode};
use crate::ledger::{lemma_balances_pushed, lemma_balances_updated, lemma_donations_pushed,
    lemma_donations_updated, lemma_profiles_updated, lemma_remove_insert_is_update,
    lemma_same_balances_accessors, lemma_same_donations_accessors, lemma_same_profiles_accessors,
    Ledger};
use crate::states::{Balance, Donation, UserProfile};
use vstd::arithmetic::div_mod::{lemma_div_is_ordered, lemma_div_multiples_vanish,
    lemma_div_pos_is_pos};

verus! {

/// The platform's cut of a donation: integer percent, truncating division.
pub open spec fn fee_of(amount: u64, percent: u64) -> int {
    (amount * percent) / 100
}

/// The fee stays between zero and the full amount for any true percent.
pub proof fn lemma_fee_bounds(amount: u64, percent: u64)
    requires
        percent <= 100,
    ensures
        0 <= fee_of(amount, percent) <= amount,
{
    assert(amount * percent >= 0) by (nonlinear_arith);
    lemma_div_pos_is_pos(amount * percent, 100);
    assert(amount * percent <= amount * 100) by (nonlinear_arith)
        requires
            percent <= 100,
            amount >= 0,
    ;
    lemma_div_is_ordered(amount * percent, amount * 100, 100);
    lemma_div_multiples_vanish(amount as int, 100);
}

/// The domain rules all pass and the donor can fund the full amount: the
/// donation goes through exactly when this holds.
pub open spec fn donation_admissible(l: Ledger, donor: u64, creator: u64, amount: u64) -> bool {
    &&& donor != creator
    &&& amount >= MIN_DONATION_AMOUNT
    &&& l.has_profile(creator)
    &&& l.balance_of(donor) >= amount
}

/// Exact effect of a successful `donate_to_creator`: the donor funds the
/// full amount, the creator's balance and received total gain the net
/// share, the platform's balance gains the fee, the pair's donation log
/// entry is written, and the global donation total rises by the gross
/// amount.
pub open spec fn donate_applied(
    pre: Ledger,
    post: Ledger,
    donor: u64,
    creator: u64,
    amount: u64,
    now: u64,
) -> bool {
    let fee = fee_of(amount, pre.state.platform_fee);
    let net = amount - fee;
    &&& donation_admissible(pre, donor, creator, amount)
    &&& post.state == (crate::states::ProgramState {
        total_donations: (pre.state.total_donations + amount) as u64,
        ..pre.state
    })
    &&& forall|k: u64|
        #[trigger] post.balance_of(k) == pre.balance_of(k) - (if k == donor {
            amount as int
        } else {
            0
        }) + (if k == creator {
            net
        } else {
            0
        }) + (if k == pre.state.platform_address {
            fee
        } else {
            0
        })
    &&& post.profiles@.len() == pre.profiles@.len()
    &&& forall|k: u64| #[trigger] post.has_profile(k) == pre.has_profile(k)
    &&& post.profile(creator) == (UserProfile {
        total_donations_received: (pre.profile(creator).total_donations_received + net) as u64,
        ..pre.profile(creator)
    })
    &&& forall|k: u64|
        k != creator && pre.has_profile(k) ==> #[trigger] post.profile(k) == pre.profile(k)
    &&& post.has_donation(donor, creator)
    &&& post.donation(donor, creator) == (Donation {
        donor,
        recipient: creator,
        amount,
        timestamp: now,
        transaction_id: Address::Donation { donor, recipient: creator },
    })
    &&& forall|a: u64, b: u64|
        !(a == donor && b == creator) ==> #[trigger] post.has_donation(a, b) == pre.has_donation(
            a,
            b,
        )
    &&& forall|a: u64, b: u64|
        !(a == donor && b == creator) && pre.has_donation(a, b) ==> #[trigger] post.donation(
            a,
            b,
        ) == pre.donation(a, b)
    &&& post.donations@.len() == if pre.has_donation(donor, creator) {
        pre.donations@.len() as int
    } else {
        pre.donations@.len() as int + 1
    }
    &&& post.posts@ == pre.posts@
    &&& post.comments@ == pre.comments@
    &&& post.follows@ == pre.follows@
    &&& post.likes@ == pre.likes@
}

impl Ledger {
    /// Moves the donation out of the donor's funding balance: the net
    /// share to the creator, the fee (when any) to the platform identity.
    fn apply_transfers(&mut self, donor: u64, creator: u64, plat: u64, net: u64, fee: u64)
        requires
            old(self).balances_unique(),
            donor != creator,
            0 < net + fee <= u64::MAX,
            old(self).balance_of(donor) >= net + fee,
            old(self).balance_of(creator) + net + fee <= u64::MAX,
            plat != donor && plat != creator && fee > 0 ==> old(self).balance_of(plat) + fee
                <= u64::MAX,
        ensures
            final(self).balances_unique(),
            forall|k: u64|
                #[trigger] final(self).balance_of(k) == old(self).balance_of(k) - (if k == donor {
                    net + fee
                } else {
                    0
                }) + (if k == creator {
                    net as int
                } else {
                    0
                }) + (if k == plat {
                    fee as int
                } else {
                    0
                }),
            final(self).state == old(self).state,
            final(self).profiles@ == old(self).profiles@,
            final(self).posts@ == old(self).posts@,
            final(self).comments@ == old(self).comments@,
            final(self).follows@ == old(self).follows@,
            final(self).likes@ == old(self).likes@,
            final(self).donations@ == old(self).donations@,
    {
        let ghost l0 = *old(self);
        let amount = net + fee;
        let bix = match self.find_balance(donor) {
            Some(i) => i,
            None => {
                proof {
                    assert(false);
                }
                return;
            },
        };
        proof {
            l0.lemma_balance_ix(donor);
            assert(bix as int == l0.balance_ix(donor));
        }
        let mut db = self.balances.remove(bix);
        db.amount = db.amount - amount;
        let ghost gdb = db;
        self.balances.insert(bix, db);
        let ghost m1 = *self;
        proof {
            lemma_remove_insert_is_update(l0.balances@, bix as int, gdb);
            lemma_balances_updated(l0, m1, bix as int, gdb);
        }
        match self.find_balance(creator) {
            Some(i) => {
                proof {
                    m1.lemma_balance_ix(creator);
                    assert(m1.balances@[i as int].owner == creator);
                    assert(m1.balance_of(creator) == l0.balance_of(creator));
                }
                let mut cb = self.balances.remove(i);
                cb.amount = cb.amount + net;
                let ghost gcb = cb;
                self.balances.insert(i, cb);
                proof {
                    lemma_remove_insert_is_update(m1.balances@, i as int, gcb);
                    lemma_balances_updated(m1, *self, i as int, gcb);
                }
            },
            None => {
                self.balances.push(Balance { owner: creator, amount: net });
                proof {
                    lemma_balances_pushed(m1, *self, (Balance { owner: creator, amount: net }));
                }
            },
        }
        let ghost m2 = *self;
        if fee > 0 {
            proof {
                if plat == creator {
                    assert(m2.balance_of(plat) == l0.balance_of(creator) + net);
                } else if plat == donor {
                    assert(m2.balance_of(plat) == l0.balance_of(donor) - amount);
                } else {
                    assert(m2.balance_of(plat) == l0.balance_of(plat));
                }
            }
            match self.find_balance(plat) {
                Some(i) => {
                    proof {
                        m2.lemma_balance_ix(plat);
                        assert(m2.balances@[i as int].owner == plat);
                    }
                    let mut pb = self.balances.remove(i);
                    pb.amount = pb.amount + fee;
                    let ghost gpb = pb;
                    self.balances.insert(i, pb);
                    proof {
                        lemma_remove_insert_is_update(m2.balances@, i as int, gpb);
                        lemma_balances_updated(m2, *self, i as int, gpb);
                    }
                },
                None => {
                    self.balances.push(Balance { owner: plat, amount: fee });
                    proof {
                        lemma_balances_pushed(m2, *self, (Balance { owner: plat, amount: fee }));
                    }
                },
            }
        } else {
            proof {
                lemma_same_balances_accessors(m2, *self);
            }
        }
    }

    /// Writes the pair's donation log entry: a fresh record, or the
    /// previous entry overwritten.
    fn log_donation(&mut self, d: Donation)
        requires
            old(self).donations_wf(),
            d.donor != d.recipient,
            d.transaction_id == (Address::Donation { donor: d.donor, recipient: d.recipient }),
        ensures
            final(self).donations_wf(),
            final(self).has_donation(d.donor, d.recipient),
            final(self).donation(d.donor, d.recipient) == d,
            forall|a: u64, b: u64|
                !(a == d.donor && b == d.recipient) ==> #[trigger] final(self).has_donation(a, b)
                    == old(self).has_donation(a, b),
            forall|a: u64, b: u64|
                !(a == d.donor && b == d.recipient) && old(self).has_donation(a, b)
                    ==> #[trigger] final(self).donation(a, b) == old(self).donation(a, b),
            final(self).donations@.len() == if old(self).has_donation(d.donor, d.recipient) {
                old(self).donations@.len() as int
            } else {
                old(self).donations@.len() as int + 1
            },
            final(self).state == old(self).state,
            final(self).profiles@ == old(self).profiles@,
            final(self).posts@ == old(self).posts@,
            final(self).comments@ == old(self).comments@,
            final(self).follows@ == old(self).follows@,
            final(self).likes@ == old(self).likes@,
            final(self).balances@ == old(self).balances@,
    {
        let ghost l0 = *old(self);
        match self.find_donation(d.donor, d.recipient) {
            Some(i) => {
                proof {
                    assert(l0.donations@[i as int].donor == d.donor);
                    assert(l0.has_donation(d.donor, d.recipient));
                }
                let ghost grec = d;
                self.donations.remove(i);
                self.donations.insert(i, d);
                proof {
                    lemma_remove_insert_is_update(l0.donations@, i as int, grec);
                    lemma_donations_updated(l0, *self, i as int, grec);
                }
            },
            None => {
                self.donations.push(d);
                proof {
                    lemma_donations_pushed(l0, *self, d);
                }
            },
        }
    }

    /// Splits a donation into the creator's net share and the platform
    /// fee, executes both transfers against the donor's funding balance
    /// (creator first; a failure aborts the whole operation with nothing
    /// changed), logs the donation for the pair, and updates the running
    /// totals.
    #[verifier::rlimit(60)]
    pub fn donate_to_creator(&mut self, donor: u64, creator: u64, amount: u64, now: u64) -> (r:
        Result<(), DonationError>)
        requires
            old(self).wf(),
            old(self).state.initialized,
            donor != creator && amount >= MIN_DONATION_AMOUNT && old(self).has_profile(creator)
                ==> amount * old(self).state.platform_fee <= u64::MAX,
            donation_admissible(*old(self), donor, creator, amount) ==> old(
                self,
            ).state.total_donations + amount <= u64::MAX,
            donation_admissible(*old(self), donor, creator, amount) ==> old(self).profile(
                creator,
            ).total_donations_received + amount <= u64::MAX,
            donation_admissible(*old(self), donor, creator, amount) ==> old(self).balance_of(
                creator,
            ) + amount <= u64::MAX,
            donation_admissible(*old(self), donor, creator, amount) && old(
                self,
            ).state.platform_address != donor && old(self).state.platform_address != creator
                ==> old(self).balance_of(old(self).state.platform_address) + amount <= u64::MAX,
        ensures
            final(self).wf(),
            (r matches Err(DonationError::Code(ErrorCode::CannotDonateToSelf))) <==> donor
                == creator,
            (r matches Err(DonationError::Code(ErrorCode::InvalidDonationAmount))) <==> donor
                != creator && amount < MIN_DONATION_AMOUNT,
            (r matches Err(DonationError::Code(ErrorCode::ProfileNotFound))) <==> donor != creator
                && amount >= MIN_DONATION_AMOUNT && !old(self).has_profile(creator),
            (r matches Err(DonationError::TransferFailed)) <==> donor != creator && amount
                >= MIN_DONATION_AMOUNT && old(self).has_profile(creator) && old(self).balance_of(
                donor,
            ) < amount,
            r is Ok <==> donation_admissible(*old(self), donor, creator, amount),
            r is Err ==> *final(self) == *old(self),
            r is Ok ==> donate_applied(*old(self), *final(self), donor, creator, amount, now),
    {
        if donor == creator {
            return Err(DonationError::Code(ErrorCode::CannotDonateToSelf));
        }
        if amount < MIN_DONATION_AMOUNT {
            return Err(DonationError::Code(ErrorCode::InvalidDonationAmount));
        }
        let cix = match self.find_profile(creator) {
            Some(i) => i,
            None => {
                return Err(DonationError::Code(ErrorCode::ProfileNotFound));
            },
        };
        proof {
            old(self).lemma_profile_ix(creator);
            assert(cix as int == old(self).profile_ix(creator));
            lemma_fee_bounds(amount, old(self).state.platform_fee);
        }
        let fee = (amount * self.state.platform_fee) / 100;
        let net = amount - fee;
        let plat = self.state.platform_address;
        let ghost l0 = *old(self);

        // Creator transfer first: insufficient funding aborts everything
        // before any record changes.
        let enough = match self.find_balance(donor) {
            Some(i) => {
                proof {
                    l0.lemma_balance_ix(donor);
                    assert(l0.balances@[i as int].owner == donor);
                }
                self.balances[i].amount >= amount
            },
            None => false,
        };
        if !enough {
            return Err(DonationError::TransferFailed);
        }
        self.apply_transfers(donor, creator, plat, net, fee);
        let ghost m3 = *self;

        let d = Donation {
            donor,
            recipient: creator,
            amount,
            timestamp: now,
            transaction_id: Address::Donation { donor, recipient: creator },
        };
        self.log_donation(d);
        let ghost m4 = *self;
        proof {
            lemma_same_profiles_accessors(l0, m4);
            assert(m4.profiles@[cix as int].total_donations_received == l0.profile(
                creator,
            ).total_donations_received);
        }
        let mut cp = self.profiles.remove(cix);
        cp.total_donations_received = cp.total_donations_received + net;
        let ghost gcp = cp;
        self.profiles.insert(cix, cp);
        let ghost m5 = *self;
        proof {
            lemma_remove_insert_is_update(m4.profiles@, cix as int, gcp);
            lemma_profiles_updated(m4, m5, cix as int, gcp);
        }
        self.state.total_donations = self.state.total_donations + amount;
        proof {
            lemma_same_profiles_accessors(m5, *self);
            lemma_same_balances_accessors(m3, *self);
            lemma_same_donations_accessors(m4, *self);
        }
        Ok(())
    }
}

} // verus!
