//! The event data model: one activity record and its optional sub-structures.
//!
//! Each executable type has a mathematical model (`...View`) reached through
//! [`DeepView`]; contracts elsewhere in the crate speak of those models.
//! Strings are modelled as `Seq<char>` and the dataless enums stand for
//! themselves.

use vstd::prelude::*;

verus! {

/// Lifecycle status of an activity event.
#[derive(Clone, Copy, PartialEq, Eq, Structural, Debug)]
pub enum ActivityStatus {
    Started,
    Approved,
    Submitted,
    Attested,
    Completed,
    Failed,
}

/// The kind of activity an event records.
#[derive(Clone, Copy, PartialEq, Eq, Structural, Debug)]
pub enum ActivityKind {
    Bridge,
    Swap,
    Deploy,
    ContractCall,
}

/// Mode under which an AI assessment was produced.
#[derive(Clone, Copy, PartialEq, Eq, Structural, Debug)]
pub enum ActivityAiMode {
    Suggest,
    Approve,
}

/// Outcome of an AI assessment.
#[derive(Clone, Copy, PartialEq, Eq, Structural, Debug)]
pub enum ActivityAiVerdict {
    Approve,
    Deny,
    Suggest,
}

/// Token involved in a transfer or swap.
#[derive(Clone, Copy, PartialEq, Eq, Structural, Debug)]
pub enum ActivityTokenSymbol {
    Usdc,
    Eurc,
}

/// Source and destination chain of a cross-chain action.
#[derive(Clone, Copy, PartialEq, Eq, Structural, Debug)]
pub struct ActivityChains {
    pub source_chain_id: Option<u32>,
    pub dest_chain_id: Option<u32>,
}

/// Token and amount attached to an event.
#[derive(Debug, PartialEq)]
pub struct ActivityToken {
    pub symbol: ActivityTokenSymbol,
    pub amount: String,
}

/// Model of [`ActivityToken`].
pub ghost struct TokenView {
    pub symbol: ActivityTokenSymbol,
    pub amount: Seq<char>,
}

impl DeepView for ActivityToken {
    type V = TokenView;

    open spec fn deep_view(&self) -> TokenView {
        TokenView { symbol: self.symbol, amount: self.amount@ }
    }
}

impl Clone for ActivityToken {
    fn clone(&self) -> (res: Self)
        ensures
            res.deep_view() == self.deep_view(),
    {
        ActivityToken { symbol: self.symbol, amount: self.amount.clone() }
    }
}

/// Transaction hashes on the source and destination chains.
#[derive(Debug, PartialEq)]
pub struct ActivityTx {
    pub source_tx_hash: Option<String>,
    pub dest_tx_hash: Option<String>,
}

/// Model of [`ActivityTx`].
pub ghost struct TxView {
    pub source_tx_hash: Option<Seq<char>>,
    pub dest_tx_hash: Option<Seq<char>>,
}

impl DeepView for ActivityTx {
    type V = TxView;

    open spec fn deep_view(&self) -> TxView {
        TxView {
            source_tx_hash: self.source_tx_hash.deep_view(),
            dest_tx_hash: self.dest_tx_hash.deep_view(),
        }
    }
}

impl Clone for ActivityTx {
    fn clone(&self) -> (res: Self)
        ensures
            res.deep_view() == self.deep_view(),
    {
        ActivityTx {
            source_tx_hash: clone_opt_string(&self.source_tx_hash),
            dest_tx_hash: clone_opt_string(&self.dest_tx_hash),
        }
    }
}

/// Explorer links for the source and destination transactions.
#[derive(Debug, PartialEq)]
pub struct ActivityRefs {
    pub explorer_source_url: Option<String>,
    pub explorer_dest_url: Option<String>,
}

/// Model of [`ActivityRefs`].
pub ghost struct RefsView {
    pub explorer_source_url: Option<Seq<char>>,
    pub explorer_dest_url: Option<Seq<char>>,
}

impl DeepView for ActivityRefs {
    type V = RefsView;

    open spec fn deep_view(&self) -> RefsView {
        RefsView {
            explorer_source_url: self.explorer_source_url.deep_view(),
            explorer_dest_url: self.explorer_dest_url.deep_view(),
        }
    }
}

impl Clone for ActivityRefs {
    fn clone(&self) -> (res: Self)
        ensures
            res.deep_view() == self.deep_view(),
    {
        ActivityRefs {
            explorer_source_url: clone_opt_string(&self.explorer_source_url),
            explorer_dest_url: clone_opt_string(&self.explorer_dest_url),
        }
    }
}

/// AI-assessment metadata attached to an event.
#[derive(Debug, PartialEq)]
pub struct ActivityAi {
    pub mode: ActivityAiMode,
    pub receipt_root: Option<String>,
    pub model: Option<String>,
    pub verdict: Option<ActivityAiVerdict>,
    pub reason: Option<String>,
}

/// Model of [`ActivityAi`].
pub ghost struct AiView {
    pub mode: ActivityAiMode,
    pub receipt_root: Option<Seq<char>>,
    pub model: Option<Seq<char>>,
    pub verdict: Option<ActivityAiVerdict>,
    pub reason: Option<Seq<char>>,
}

impl DeepView for ActivityAi {
    type V = AiView;

    open spec fn deep_view(&self) -> AiView {
        AiView {
            mode: self.mode,
            receipt_root: self.receipt_root.deep_view(),
            model: self.model.deep_view(),
            verdict: self.verdict,
            reason: self.reason.deep_view(),
        }
    }
}

impl Clone for ActivityAi {
    fn clone(&self) -> (res: Self)
        ensures
            res.deep_view() == self.deep_view(),
    {
        ActivityAi {
            mode: self.mode,
            receipt_root: clone_opt_string(&self.receipt_root),
            model: clone_opt_string(&self.model),
            verdict: self.verdict,
            reason: clone_opt_string(&self.reason),
        }
    }
}

/// Extra detail carried with a signals bundle.
#[derive(Debug, PartialEq)]
pub struct ActivitySignalsMeta {
    pub deploy_address: Option<String>,
    pub errors: Option<Vec<String>>,
    pub decimals: Option<u32>,
    pub slippage: Option<String>,
}

/// Model of [`ActivitySignalsMeta`].
pub ghost struct SignalsMetaView {
    pub deploy_address: Option<Seq<char>>,
    pub errors: Option<Seq<Seq<char>>>,
    pub decimals: Option<u32>,
    pub slippage: Option<Seq<char>>,
}

impl DeepView for ActivitySignalsMeta {
    type V = SignalsMetaView;

    open spec fn deep_view(&self) -> SignalsMetaView {
        SignalsMetaView {
            deploy_address: self.deploy_address.deep_view(),
            errors: self.errors.deep_view(),
            decimals: self.decimals,
            slippage: self.slippage.deep_view(),
        }
    }
}

impl Clone for ActivitySignalsMeta {
    fn clone(&self) -> (res: Self)
        ensures
            res.deep_view() == self.deep_view(),
    {
        let errors = match &self.errors {
            Some(list) => Some(clone_string_vec(list)),
            None => None,
        };
        ActivitySignalsMeta {
            deploy_address: clone_opt_string(&self.deploy_address),
            errors,
            decimals: self.decimals,
            slippage: clone_opt_string(&self.slippage),
        }
    }
}

/// Free-form signal strings plus optional structured detail.
#[derive(Debug, PartialEq)]
pub struct ActivitySignals {
    pub items: Vec<String>,
    pub meta: Option<ActivitySignalsMeta>,
}

/// Model of [`ActivitySignals`].
pub ghost struct SignalsView {
    pub items: Seq<Seq<char>>,
    pub meta: Option<SignalsMetaView>,
}

impl DeepView for ActivitySignals {
    type V = SignalsView;

    open spec fn deep_view(&self) -> SignalsView {
        SignalsView { items: self.items.deep_view(), meta: self.meta.deep_view() }
    }
}

impl Clone for ActivitySignals {
    fn clone(&self) -> (res: Self)
        ensures
            res.deep_view() == self.deep_view(),
    {
        let meta = match &self.meta {
            Some(m) => Some(m.clone()),
            None => None,
        };
        ActivitySignals { items: clone_string_vec(&self.items), meta }
    }
}

/// One activity record: identity, classification, status, and six
/// independently optional sub-structures.
#[derive(Debug, PartialEq)]
pub struct ActivityEvent {
    pub id: String,
    pub created_at: String,
    pub actor: String,
    pub app: String,
    pub intent_id: String,
    pub kind: ActivityKind,
    pub status: ActivityStatus,
    pub chains: Option<ActivityChains>,
    pub token: Option<ActivityToken>,
    pub tx: Option<ActivityTx>,
    pub refs: Option<ActivityRefs>,
    pub ai: Option<ActivityAi>,
    pub signals: Option<ActivitySignals>,
}

/// Model of [`ActivityEvent`].
pub ghost struct EventView {
    pub id: Seq<char>,
    pub created_at: Seq<char>,
    pub actor: Seq<char>,
    pub app: Seq<char>,
    pub intent_id: Seq<char>,
    pub kind: ActivityKind,
    pub status: ActivityStatus,
    pub chains: Option<ActivityChains>,
    pub token: Option<TokenView>,
    pub tx: Option<TxView>,
    pub refs: Option<RefsView>,
    pub ai: Option<AiView>,
    pub signals: Option<SignalsView>,
}

impl DeepView for ActivityEvent {
    type V = EventView;

    open spec fn deep_view(&self) -> EventView {
        EventView {
            id: self.id@,
            created_at: self.created_at@,
            actor: self.actor@,
            app: self.app@,
            intent_id: self.intent_id@,
            kind: self.kind,
            status: self.status,
            chains: self.chains,
            token: self.token.deep_view(),
            tx: self.tx.deep_view(),
            refs: self.refs.deep_view(),
            ai: self.ai.deep_view(),
            signals: self.signals.deep_view(),
        }
    }
}

impl Clone for ActivityEvent {
    fn clone(&self) -> (res: Self)
        ensures
            res.deep_view() == self.deep_view(),
    {
        let token = match &self.token {
            Some(t) => Some(t.clone()),
            None => None,
        };
        let tx = match &self.tx {
            Some(t) => Some(t.clone()),
            None => None,
        };
        let refs = match &self.refs {
            Some(r) => Some(r.clone()),
            None => None,
        };
        let ai = match &self.ai {
            Some(a) => Some(a.clone()),
            None => None,
        };
        let signals = match &self.signals {
            Some(s) => Some(s.clone()),
            None => None,
        };
        ActivityEvent {
            id: self.id.clone(),
            created_at: self.created_at.clone(),
            actor: self.actor.clone(),
            app: self.app.clone(),
            intent_id: self.intent_id.clone(),
            kind: self.kind,
            status: self.status,
            chains: self.chains,
            token,
            tx,
            refs,
            ai,
            signals,
        }
    }
}

/// Clones an optional string, keeping its model.
fn clone_opt_string(value: &Option<String>) -> (res: Option<String>)
    ensures
        res.deep_view() == value.deep_view(),
{
    match value {
        Some(s) => Some(s.clone()),
        None => None,
    }
}

/// Clones a vector of strings, keeping its model.
fn clone_string_vec(list: &Vec<String>) -> (res: Vec<String>)
    ensures
        res.deep_view() == list.deep_view(),
{
    let mut out: Vec<String> = Vec::new();
    let mut i: usize = 0;
    while i < list.len()
        invariant
            i <= list.len(),
            out.deep_view() =~= list.deep_view().take(i as int),
        decreases list.len() - i,
    {
        let ghost prev = out.deep_view();
        out.push(list[i].clone());
        proof {
            assert(out.deep_view() =~= prev.push(list.deep_view()[i as int]));
            assert(list.deep_view().take(i + 1) =~= list.deep_view().take(i as int).push(
                list.deep_view()[i as int],
            ));
        }
        i = i + 1;
    }
    proof {
        assert(out.deep_view() =~= list.deep_view());
    }
    out
}

} // verus!
