//! The seam between the billing service and whatever bills customers.
//! The in-memory provider keeps a subscription and a list of invoices per
//! billing account; a real adapter (Stripe, Lago, ...) is another impl of
//! `BillingProvider`.

use vstd::prelude::*;

use crate::domain::{BillingAccountId, Duplicate, Invoice, InvoiceId, Subscription};
use crate::store::error::{concat, StoreError, StoreErrorView, StoreResult};
use crate::store::table::Table;

verus! {

/// What a billing provider holds: a subscription and the invoices, in
/// issue order, per billing account.
pub struct BillingState {
    pub subscriptions: Map<Seq<char>, Subscription>,
    pub invoices: Map<Seq<char>, Seq<Invoice>>,
}

/// The invoices of an account: none until the first is recorded.
pub open spec fn invoices_of(s: BillingState, b: Seq<char>) -> Seq<Invoice> {
    if s.invoices.contains_key(b) {
        s.invoices[b]
    } else {
        Seq::empty()
    }
}

pub open spec fn subscription_fields(
    sub: Subscription,
    b: Seq<char>,
    plan: Seq<char>,
    status: Seq<char>,
    token: Option<Seq<char>>,
    now: i64,
) -> bool {
    &&& sub.billing_account_id@ == b
    &&& sub.plan@ == plan
    &&& sub.status@ == status
    &&& match sub.payment_method_token {
        Some(t) => token == Some(t@),
        None => token is None,
    }
    &&& sub.updated_at_ms == now
}

pub trait BillingProvider {
    spec fn billing_state(&self) -> BillingState;

    spec fn billing_inv(&self) -> bool;

    fn get_subscription(&self, billing_account_id: &BillingAccountId) -> (r: StoreResult<Subscription>)
        requires
            self.billing_inv(),
        ensures
            self.billing_state().subscriptions.contains_key(billing_account_id@) ==> r
                == Ok::<Subscription, StoreError>(self.billing_state().subscriptions[billing_account_id@]),
            !self.billing_state().subscriptions.contains_key(billing_account_id@) ==> (r matches Err(e)
                && e@ == StoreErrorView::NotFound("subscription "@ + billing_account_id@)),
    ;

    /// Attach a payment method: the account moves to the active starter plan.
    fn set_payment_method(&mut self, billing_account_id: &BillingAccountId, payment_method_token: String, now_ms: i64) -> (r: StoreResult<Subscription>)
        requires
            old(self).billing_inv(),
        ensures
            final(self).billing_inv(),
            r matches Ok(sub) && subscription_fields(
                sub,
                billing_account_id@,
                "starter"@,
                "active"@,
                Some(payment_method_token@),
                now_ms,
            ) && final(self).billing_state() == (BillingState {
                subscriptions: old(self).billing_state().subscriptions.insert(billing_account_id@, sub),
                ..old(self).billing_state()
            }),
    ;

    /// Mark the subscription canceled.
    fn cancel_subscription(&mut self, billing_account_id: &BillingAccountId, now_ms: i64) -> (r: StoreResult<Subscription>)
        requires
            old(self).billing_inv(),
        ensures
            final(self).billing_inv(),
            !old(self).billing_state().subscriptions.contains_key(billing_account_id@) ==> (r matches Err(e)
                && e@ == StoreErrorView::NotFound("subscription "@ + billing_account_id@))
                && final(self).billing_state() == old(self).billing_state(),
            old(self).billing_state().subscriptions.contains_key(billing_account_id@) ==> (r matches Ok(sub)
                && sub == (Subscription {
                status: sub.status,
                updated_at_ms: now_ms,
                ..old(self).billing_state().subscriptions[billing_account_id@]
            }) && sub.status@ == "canceled"@ && final(self).billing_state() == (BillingState {
                subscriptions: old(self).billing_state().subscriptions.insert(billing_account_id@, sub),
                ..old(self).billing_state()
            })),
    ;

    /// The account's invoices in issue order.
    fn list_invoices(&self, billing_account_id: &BillingAccountId) -> (r: StoreResult<Vec<Invoice>>)
        requires
            self.billing_inv(),
        ensures
            r matches Ok(v) && v@ == invoices_of(self.billing_state(), billing_account_id@),
    ;

    /// Issue an invoice to the account.
    fn record_invoice(
        &mut self,
        billing_account_id: &BillingAccountId,
        amount_cents: i64,
        currency: String,
        status: String,
        now_ms: i64,
    ) -> (r: StoreResult<Invoice>)
        requires
            old(self).billing_inv(),
        ensures
            final(self).billing_inv(),
            r matches Ok(inv) && inv.billing_account_id@ == billing_account_id@ && inv.amount_cents
                == amount_cents && inv.currency == currency && inv.status == status && inv.issued_at_ms
                == now_ms && final(self).billing_state() == (BillingState {
                invoices: old(self).billing_state().invoices.insert(
                    billing_account_id@,
                    invoices_of(old(self).billing_state(), billing_account_id@).push(inv),
                ),
                ..old(self).billing_state()
            }),
    ;

    /// Give the account the default subscription unless it has one.
    fn ensure_subscription(&mut self, billing_account_id: &BillingAccountId, now_ms: i64) -> (r: StoreResult<()>)
        requires
            old(self).billing_inv(),
        ensures
            final(self).billing_inv(),
            r is Ok,
            old(self).billing_state().subscriptions.contains_key(billing_account_id@)
                ==> final(self).billing_state() == old(self).billing_state(),
            !old(self).billing_state().subscriptions.contains_key(billing_account_id@) ==> ({
                let sub = final(self).billing_state().subscriptions[billing_account_id@];
                &&& subscription_fields(sub, billing_account_id@, "free"@, "none"@, None, now_ms)
                &&& final(self).billing_state() == (BillingState {
                    subscriptions: old(self).billing_state().subscriptions.insert(billing_account_id@, sub),
                    ..old(self).billing_state()
                })
            }),
    ;
}

/// Subscriptions and invoices held in memory.
pub struct InMemoryBillingProvider {
    subscriptions: Table<BillingAccountId, Subscription>,
    invoices: Table<BillingAccountId, Vec<Invoice>>,
}

impl InMemoryBillingProvider {
    pub fn new() -> (p: InMemoryBillingProvider)
        ensures
            p.billing_inv(),
            p.billing_state().subscriptions == Map::<Seq<char>, Subscription>::empty(),
            p.billing_state().invoices == Map::<Seq<char>, Seq<Invoice>>::empty(),
    {
        let p = InMemoryBillingProvider { subscriptions: Table::new(), invoices: Table::new() };
        proof {
            assert(p.billing_state().invoices =~= Map::<Seq<char>, Seq<Invoice>>::empty());
        }
        p
    }
}

/// The subscription an account starts with: the free plan, no status, no
/// payment method.
pub fn default_subscription(billing_account_id: &BillingAccountId, now_ms: i64) -> (sub: Subscription)
    ensures
        subscription_fields(sub, billing_account_id@, "free"@, "none"@, None, now_ms),
{
    proof {
        reveal_strlit("free");
        reveal_strlit("none");
    }
    Subscription {
        billing_account_id: billing_account_id.duplicate(),
        plan: String::from_str("free"),
        status: String::from_str("none"),
        payment_method_token: None,
        updated_at_ms: now_ms,
    }
}

impl BillingProvider for InMemoryBillingProvider {
    closed spec fn billing_state(&self) -> BillingState {
        BillingState {
            subscriptions: self.subscriptions.map(),
            invoices: self.invoices.map().map_values(|v: Vec<Invoice>| v@),
        }
    }

    closed spec fn billing_inv(&self) -> bool {
        self.subscriptions.wf() && self.invoices.wf()
    }

    fn get_subscription(&self, billing_account_id: &BillingAccountId) -> (r: StoreResult<Subscription>) {
        match self.subscriptions.get(billing_account_id) {
            Some(s) => Ok(s.duplicate()),
            None => {
                proof {
                    reveal_strlit("subscription ");
                }
                Err(StoreError::not_found(concat("subscription ", billing_account_id.as_str())))
            },
        }
    }

    fn set_payment_method(&mut self, billing_account_id: &BillingAccountId, payment_method_token: String, now_ms: i64) -> (r: StoreResult<Subscription>) {
        proof {
            reveal_strlit("starter");
            reveal_strlit("active");
        }
        let sub = Subscription {
            billing_account_id: billing_account_id.duplicate(),
            plan: String::from_str("starter"),
            status: String::from_str("active"),
            payment_method_token: Some(payment_method_token),
            updated_at_ms: now_ms,
        };
        self.subscriptions.insert(billing_account_id.duplicate(), sub.duplicate());
        Ok(sub)
    }

    fn cancel_subscription(&mut self, billing_account_id: &BillingAccountId, now_ms: i64) -> (r: StoreResult<Subscription>) {
        let updated = match self.subscriptions.get(billing_account_id) {
            Some(s) => {
                let mut s = s.duplicate();
                s.status = String::from_str("canceled");
                s.updated_at_ms = now_ms;
                s
            },
            None => {
                proof {
                    reveal_strlit("subscription ");
                }
                return Err(StoreError::not_found(concat("subscription ", billing_account_id.as_str())));
            },
        };
        proof {
            reveal_strlit("canceled");
        }
        self.subscriptions.insert(billing_account_id.duplicate(), updated.duplicate());
        Ok(updated)
    }

    fn list_invoices(&self, billing_account_id: &BillingAccountId) -> (r: StoreResult<Vec<Invoice>>) {
        match self.invoices.get(billing_account_id) {
            Some(v) => Ok(copy_invoices(v)),
            None => Ok(Vec::new()),
        }
    }

    fn record_invoice(
        &mut self,
        billing_account_id: &BillingAccountId,
        amount_cents: i64,
        currency: String,
        status: String,
        now_ms: i64,
    ) -> (r: StoreResult<Invoice>) {
        let inv = Invoice {
            id: InvoiceId::new(),
            billing_account_id: billing_account_id.duplicate(),
            amount_cents,
            currency,
            status,
            issued_at_ms: now_ms,
        };
        let mut list = match self.invoices.get(billing_account_id) {
            Some(v) => copy_invoices(v),
            None => Vec::new(),
        };
        list.push(inv.duplicate());
        self.invoices.insert(billing_account_id.duplicate(), list);
        proof {
            assert(self.billing_state().invoices =~= old(self).billing_state().invoices.insert(
                billing_account_id@,
                invoices_of(old(self).billing_state(), billing_account_id@).push(inv),
            ));
        }
        Ok(inv)
    }

    fn ensure_subscription(&mut self, billing_account_id: &BillingAccountId, now_ms: i64) -> (r: StoreResult<()>) {
        if !self.subscriptions.contains_key(billing_account_id) {
            let sub = default_subscription(billing_account_id, now_ms);
            self.subscriptions.insert(billing_account_id.duplicate(), sub);
        }
        Ok(())
    }
}

/// A copy of a list of invoices.
fn copy_invoices(v: &Vec<Invoice>) -> (r: Vec<Invoice>)
    ensures
        r@ == v@,
{
    let mut out: Vec<Invoice> = Vec::new();
    let mut i: usize = 0;
    while i < v.len()
        invariant
            i <= v@.len(),
            out@ == v@.subrange(0, i as int),
        decreases v@.len() - i,
    {
        out.push(v[i].duplicate());
        i = i + 1;
        assert(out@ =~= v@.subrange(0, i as int));
    }
    assert(v@.subrange(0, v@.len() as int) =~= v@);
    out
}

} // verus!
