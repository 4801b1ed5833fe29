use crate::donation::{make_donation_id, spec_donation_id};
use crate::errors::Error;
use crate::fee::{calc_fee, fee_of};
use crate::ident::Ident;
use crate::whitelist::{
    contains_ident, copy_idents, dedup_idents, find_ident, lemma_dedup_membership,
    lemma_push_no_duplicates, lemma_remove_no_duplicates, spec_dedup,
};
use vstd::prelude::*;

verus! {

/// The streamer's payout profile: the configuration `init` writes and the
/// other operations read or mutate.
pub struct StreamerProfile {
    /// Authorizes fee and whitelist changes; immutable after initialization.
    pub streamer: Ident,
    /// Fee recipient; settable only at initialization.
    pub platform: Ident,
    /// Fee rate in basis points, at most 10000.
    pub fee_bps: u32,
    /// Accepted assets, first-seen order, no duplicates.
    pub accepted_assets: Vec<Ident>,
}

/// One asset movement a successful tip asks the host ledger to perform.
#[derive(Clone, Copy, PartialEq, Eq, Structural, Debug)]
pub struct Transfer {
    pub asset: Ident,
    pub from: Ident,
    pub to: Ident,
    pub amount: i128,
}

/// The receipt event published after a successful tip: a fixed tag plus the
/// asset and streamer as topic fields, then the body fields in order.
pub struct TipEmitted {
    pub kind: String,
    pub asset: Ident,
    pub streamer: Ident,
    pub donation_id: Vec<u8>,
    pub amount: i128,
    pub fee: i128,
    pub nickname: String,
    pub message: String,
    pub ts: i128,
    pub payer: Ident,
}

/// Everything a successful tip asks of the host, as one all-or-nothing unit:
/// the transfers to perform, the receipt event to publish once they are
/// committed, and the derived donation identifier to hand back to the caller.
pub struct TipReceipt {
    pub donation_id: Vec<u8>,
    pub transfers: Vec<Transfer>,
    pub event: TipEmitted,
}

/// The payment-splitting module's state: one streamer profile per instance,
/// absent until `init` creates it, never deleted afterwards.
pub struct TipStreamers {
    pub profile: Option<StreamerProfile>,
}

impl TipStreamers {
    /// Whether `init` has run on this instance.
    pub open spec fn is_init(self) -> bool {
        self.profile is Some
    }

    pub open spec fn streamer(self) -> Ident {
        self.profile->Some_0.streamer
    }

    pub open spec fn platform(self) -> Ident {
        self.profile->Some_0.platform
    }

    pub open spec fn fee_bps(self) -> u32 {
        self.profile->Some_0.fee_bps
    }

    pub open spec fn assets(self) -> Seq<Ident> {
        self.profile->Some_0.accepted_assets@
    }

    /// Profile invariant: once initialized, the fee rate is an admissible
    /// basis-point value and the whitelist holds no duplicates. `init`
    /// establishes it, every mutation preserves it.
    pub open spec fn wf(self) -> bool {
        self.is_init() ==> self.fee_bps() <= 10000 && self.assets().no_duplicates()
    }

    /// The error `init` answers, in check order; `None` means `init`
    /// succeeds.
    pub open spec fn init_check(
        self,
        caller: Ident,
        streamer: Ident,
        fee_bps: u32,
        accepted_assets: Seq<Ident>,
    ) -> Option<Error> {
        if self.is_init() {
            Some(Error::AlreadyInitialized)
        } else if caller != streamer {
            Some(Error::NotAuthorized)
        } else if fee_bps > 10000 {
            Some(Error::BadFee)
        } else if accepted_assets.len() == 0 {
            Some(Error::AssetNotAllowed)
        } else {
            None
        }
    }

    /// The test every post-initialization mutation makes first: the profile
    /// must exist and the caller must be the stored streamer.
    pub open spec fn auth_check(self, caller: Ident) -> Option<Error> {
        if !self.is_init() {
            Some(Error::NotInitialized)
        } else if caller != self.streamer() {
            Some(Error::NotAuthorized)
        } else {
            None
        }
    }

    /// The error `set_fee_bps` answers; `None` means it succeeds.
    pub open spec fn set_fee_check(self, caller: Ident, new_fee_bps: u32) -> Option<Error> {
        if self.auth_check(caller) is Some {
            self.auth_check(caller)
        } else if new_fee_bps > 10000 {
            Some(Error::BadFee)
        } else {
            None
        }
    }

    /// The error `add_asset` answers; `None` means it succeeds.
    pub open spec fn add_check(self, caller: Ident, asset: Ident) -> Option<Error> {
        if self.auth_check(caller) is Some {
            self.auth_check(caller)
        } else if self.assets().contains(asset) {
            Some(Error::AssetAlreadyExists)
        } else {
            None
        }
    }

    /// The error `remove_asset` answers; `None` means it succeeds.
    pub open spec fn remove_check(self, caller: Ident, asset: Ident) -> Option<Error> {
        if self.auth_check(caller) is Some {
            self.auth_check(caller)
        } else if !self.assets().contains(asset) {
            Some(Error::AssetNotAllowed)
        } else {
            None
        }
    }

    /// The error `tip` answers, in check order; `None` means the tip goes
    /// through.
    pub open spec fn tip_check(
        self,
        caller: Ident,
        payer: Ident,
        asset: Ident,
        amount: i128,
    ) -> Option<Error> {
        if caller != payer {
            Some(Error::NotAuthorized)
        } else if amount <= 0 {
            Some(Error::ZeroAmount)
        } else if !self.is_init() {
            Some(Error::NotInitialized)
        } else if !self.assets().contains(asset) {
            Some(Error::AssetNotAllowed)
        } else {
            None
        }
    }

    /// A fresh, uninitialized instance.
    pub fn new() -> (r: TipStreamers)
        ensures
            !r.is_init(),
            r.wf(),
    {
        TipStreamers { profile: None }
    }

    /// Creates the streamer profile, exactly once per instance. The caller
    /// must be the streamer; the fee rate must be admissible; the asset list
    /// must be non-empty and is stored deduplicated in first-seen order. On
    /// any error the state is untouched.
    pub fn init(
        &mut self,
        caller: Ident,
        streamer: Ident,
        platform: Ident,
        fee_bps: u32,
        accepted_assets: Vec<Ident>,
    ) -> (r: Result<(), Error>)
        requires
            old(self).wf(),
        ensures
            final(self).wf(),
            match r {
                Ok(()) => {
                    &&& old(self).init_check(caller, streamer, fee_bps, accepted_assets@) is None
                    &&& final(self).is_init()
                    &&& final(self).streamer() == streamer
                    &&& final(self).platform() == platform
                    &&& final(self).fee_bps() == fee_bps
                    &&& final(self).assets() == spec_dedup(accepted_assets@)
                },
                Err(e) => {
                    &&& old(self).init_check(caller, streamer, fee_bps, accepted_assets@) == Some(
                        e,
                    )
                    &&& *final(self) == *old(self)
                },
            },
    {
        if self.profile.is_some() {
            return Err(Error::AlreadyInitialized);
        }
        if caller != streamer {
            return Err(Error::NotAuthorized);
        }
        if fee_bps > 10000 {
            return Err(Error::BadFee);
        }
        if accepted_assets.len() == 0 {
            return Err(Error::AssetNotAllowed);
        }
        let uniq = dedup_idents(&accepted_assets);
        proof {
            lemma_dedup_membership(accepted_assets@);
        }
        self.profile = Some(
            StreamerProfile { streamer, platform, fee_bps, accepted_assets: uniq },
        );
        Ok(())
    }

    /// Overwrites the fee rate; only the stored streamer may, and only with
    /// an admissible value. On any error the state is untouched.
    pub fn set_fee_bps(&mut self, caller: Ident, new_fee_bps: u32) -> (r: Result<(), Error>)
        requires
            old(self).wf(),
        ensures
            final(self).wf(),
            match r {
                Ok(()) => {
                    &&& old(self).set_fee_check(caller, new_fee_bps) is None
                    &&& final(self).is_init()
                    &&& final(self).streamer() == old(self).streamer()
                    &&& final(self).platform() == old(self).platform()
                    &&& final(self).fee_bps() == new_fee_bps
                    &&& final(self).assets() == old(self).assets()
                },
                Err(e) => {
                    &&& old(self).set_fee_check(caller, new_fee_bps) == Some(e)
                    &&& *final(self) == *old(self)
                },
            },
    {
        if self.profile.is_none() {
            return Err(Error::NotInitialized);
        }
        let mut prof = self.profile.take().unwrap();
        if caller != prof.streamer {
            self.profile = Some(prof);
            return Err(Error::NotAuthorized);
        }
        if new_fee_bps > 10000 {
            self.profile = Some(prof);
            return Err(Error::BadFee);
        }
        prof.fee_bps = new_fee_bps;
        self.profile = Some(prof);
        Ok(())
    }

    /// Appends a new asset to the whitelist; only the stored streamer may,
    /// and duplicates are refused. On any error the state is untouched.
    pub fn add_asset(&mut self, caller: Ident, asset: Ident) -> (r: Result<(), Error>)
        requires
            old(self).wf(),
        ensures
            final(self).wf(),
            match r {
                Ok(()) => {
                    &&& old(self).add_check(caller, asset) is None
                    &&& final(self).is_init()
                    &&& final(self).streamer() == old(self).streamer()
                    &&& final(self).platform() == old(self).platform()
                    &&& final(self).fee_bps() == old(self).fee_bps()
                    &&& final(self).assets() == old(self).assets().push(asset)
                },
                Err(e) => {
                    &&& old(self).add_check(caller, asset) == Some(e)
                    &&& *final(self) == *old(self)
                },
            },
    {
        if self.profile.is_none() {
            return Err(Error::NotInitialized);
        }
        let mut prof = self.profile.take().unwrap();
        if caller != prof.streamer {
            self.profile = Some(prof);
            return Err(Error::NotAuthorized);
        }
        if contains_ident(&prof.accepted_assets, asset) {
            self.profile = Some(prof);
            return Err(Error::AssetAlreadyExists);
        }
        proof {
            lemma_push_no_duplicates(prof.accepted_assets@, asset);
        }
        prof.accepted_assets.push(asset);
        self.profile = Some(prof);
        Ok(())
    }

    /// Removes an asset from the whitelist; only the stored streamer may,
    /// and the asset must be a member. Removing the last member is allowed:
    /// every tip then fails until an asset is added again. On any error the
    /// state is untouched.
    pub fn remove_asset(&mut self, caller: Ident, asset: Ident) -> (r: Result<(), Error>)
        requires
            old(self).wf(),
        ensures
            final(self).wf(),
            match r {
                Ok(()) => {
                    &&& old(self).remove_check(caller, asset) is None
                    &&& final(self).is_init()
                    &&& final(self).streamer() == old(self).streamer()
                    &&& final(self).platform() == old(self).platform()
                    &&& final(self).fee_bps() == old(self).fee_bps()
                    &&& final(self).assets() == old(self).assets().remove(
                        old(self).assets().index_of(asset),
                    )
                },
                Err(e) => {
                    &&& old(self).remove_check(caller, asset) == Some(e)
                    &&& *final(self) == *old(self)
                },
            },
    {
        if self.profile.is_none() {
            return Err(Error::NotInitialized);
        }
        let mut prof = self.profile.take().unwrap();
        if caller != prof.streamer {
            self.profile = Some(prof);
            return Err(Error::NotAuthorized);
        }
        let ghost s = prof.accepted_assets@;
        match find_ident(&prof.accepted_assets, asset) {
            Some(pos) => {
                proof {
                    assert(s[pos as int] == asset);
                    assert(exists|j: int| 0 <= j < s.len() && s[j] == asset);
                    let j = s.index_of(asset);
                    assert(0 <= j < s.len() && s[j] == asset);
                    assert(j == pos as int);
                    lemma_remove_no_duplicates(s, pos as int);
                }
                prof.accepted_assets.remove(pos);
                self.profile = Some(prof);
                Ok(())
            },
            None => {
                self.profile = Some(prof);
                Err(Error::AssetNotAllowed)
            },
        }
    }

    /// Processes one donation: authenticates the payer, validates the amount
    /// and the asset, splits the amount into the streamer's share and the
    /// platform fee, derives the content-addressed donation identifier, and
    /// answers the transfers to perform plus the receipt event to publish as
    /// one all-or-nothing unit. The platform transfer is present exactly when
    /// the fee is positive.
    pub fn tip(
        &self,
        caller: Ident,
        payer: Ident,
        asset: Ident,
        amount: i128,
        nickname: String,
        message: String,
        timestamp: u64,
    ) -> (r: Result<TipReceipt, Error>)
        requires
            self.wf(),
        ensures
            match r {
                Ok(rcpt) => {
                    let fee = fee_of(amount as int, self.fee_bps() as int);
                    &&& self.tip_check(caller, payer, asset, amount) is None
                    &&& 0 <= fee <= amount
                    &&& rcpt.donation_id@ == spec_donation_id(payer, timestamp, amount, asset)
                    &&& rcpt.donation_id@.len() == 32
                    &&& rcpt.transfers@.len() == (if fee > 0 {
                        2int
                    } else {
                        1int
                    })
                    &&& rcpt.transfers@[0].asset == asset
                    &&& rcpt.transfers@[0].from == payer
                    &&& rcpt.transfers@[0].to == self.streamer()
                    &&& rcpt.transfers@[0].amount == amount - fee
                    &&& fee > 0 ==> {
                        &&& rcpt.transfers@[1].asset == asset
                        &&& rcpt.transfers@[1].from == payer
                        &&& rcpt.transfers@[1].to == self.platform()
                        &&& rcpt.transfers@[1].amount == fee
                    }
                    &&& rcpt.event.kind@ == "TIP"@
                    &&& rcpt.event.asset == asset
                    &&& rcpt.event.streamer == self.streamer()
                    &&& rcpt.event.donation_id@ == rcpt.donation_id@
                    &&& rcpt.event.amount == amount
                    &&& rcpt.event.fee == fee
                    &&& rcpt.event.nickname@ == nickname@
                    &&& rcpt.event.message@ == message@
                    &&& rcpt.event.ts == timestamp as int
                    &&& rcpt.event.payer == payer
                    &&& self.fee_bps() == 0 ==> (fee == 0 && rcpt.transfers@.len() == 1)
                },
                Err(e) => self.tip_check(caller, payer, asset, amount) == Some(e),
            },
    {
        if caller != payer {
            return Err(Error::NotAuthorized);
        }
        if amount <= 0 {
            return Err(Error::ZeroAmount);
        }
        let prof = match &self.profile {
            Some(p) => p,
            None => {
                return Err(Error::NotInitialized);
            },
        };
        if !contains_ident(&prof.accepted_assets, asset) {
            return Err(Error::AssetNotAllowed);
        }
        let fee = calc_fee(amount, prof.fee_bps);
        proof {
            crate::fee::lemma_zero_fee(amount as int);
        }
        if fee < 0 || fee > amount {
            return Err(Error::BadFee);
        }
        let to_streamer = amount - fee;
        let mut transfers: Vec<Transfer> = Vec::new();
        transfers.push(Transfer { asset, from: payer, to: prof.streamer, amount: to_streamer });
        if fee > 0 {
            transfers.push(Transfer { asset, from: payer, to: prof.platform, amount: fee });
        }
        let donation_id = make_donation_id(payer, timestamp, amount, asset);
        let id_copy = copy_bytes(&donation_id);
        let ts: i128 = timestamp as i128;
        let kind = "TIP".to_string();
        proof {
            vstd::string::to_string_from_display_ensures_for_str("TIP", kind);
        }
        let event = TipEmitted {
            kind,
            asset,
            streamer: prof.streamer,
            donation_id: id_copy,
            amount,
            fee,
            nickname,
            message,
            ts,
            payer,
        };
        Ok(TipReceipt { donation_id, transfers, event })
    }

    /// Reads the whole configuration; fails only before initialization.
    pub fn get_config(&self) -> (r: Result<(Ident, Ident, u32, Vec<Ident>), Error>)
        ensures
            match r {
                Ok(cfg) => {
                    &&& self.is_init()
                    &&& cfg.0 == self.streamer()
                    &&& cfg.1 == self.platform()
                    &&& cfg.2 == self.fee_bps()
                    &&& cfg.3@ == self.assets()
                },
                Err(e) => !self.is_init() && e == Error::NotInitialized,
            },
    {
        match &self.profile {
            Some(p) => {
                let assets = copy_idents(&p.accepted_assets);
                Ok((p.streamer, p.platform, p.fee_bps, assets))
            },
            None => Err(Error::NotInitialized),
        }
    }
}

/// Copies a byte string.
fn copy_bytes(v: &Vec<u8>) -> (r: Vec<u8>)
    ensures
        r@ == v@,
{
    let mut out: Vec<u8> = Vec::new();
    let mut i: usize = 0;
    while i < v.len()
        invariant
            i <= v@.len(),
            out@ == v@.take(i as int),
        decreases v@.len() - i,
    {
        out.push(v[i]);
        proof {
            assert(out@ =~= v@.take(i + 1 as int));
        }
        i = i + 1;
    }
    proof {
        assert(v@.take(v@.len() as int) =~= v@);
    }
    out
}

/// Initialization happens once: against an already initialized instance,
/// `init` answers `AlreadyInitialized`, whatever the arguments of the second
/// call.
pub proof fn lemma_init_once(
    s: TipStreamers,
    caller: Ident,
    streamer: Ident,
    fee_bps: u32,
    accepted_assets: Seq<Ident>,
)
    requires
        s.is_init(),
    ensures
        s.init_check(caller, streamer, fee_bps, accepted_assets) == Some(
            Error::AlreadyInitialized,
        ),
{
}

/// Authorization gating: every post-initialization mutation refuses a caller
/// other than the stored streamer, even with otherwise valid arguments.
pub proof fn lemma_authorization_gating(
    s: TipStreamers,
    caller: Ident,
    new_fee_bps: u32,
    asset: Ident,
)
    requires
        s.is_init(),
        caller != s.streamer(),
    ensures
        s.set_fee_check(caller, new_fee_bps) == Some(Error::NotAuthorized),
        s.add_check(caller, asset) == Some(Error::NotAuthorized),
        s.remove_check(caller, asset) == Some(Error::NotAuthorized),
{
}

/// Whitelist exhaustion: once the sole accepted asset is removed, every tip
/// against the resulting state answers `AssetNotAllowed`, whatever asset the
/// payer offers.
pub proof fn lemma_whitelist_exhaustion(
    pre: TipStreamers,
    post: TipStreamers,
    sole: Ident,
    caller: Ident,
    payer: Ident,
    asset: Ident,
    amount: i128,
)
    requires
        pre.is_init(),
        pre.assets() == seq![sole],
        post.is_init(),
        post.assets() == pre.assets().remove(pre.assets().index_of(sole)),
        caller == payer,
        amount > 0,
    ensures
        post.tip_check(caller, payer, asset, amount) == Some(Error::AssetNotAllowed),
{
    assert(pre.assets()[0] == sole);
    assert(exists|i: int| 0 <= i < pre.assets().len() && pre.assets()[i] == sole);
    let j = pre.assets().index_of(sole);
    assert(0 <= j < 1);
    assert(post.assets().len() == 0);
    assert(!post.assets().contains(asset));
}

/// Whitelist restoration: adding an asset back makes tips in that asset pass
/// the checks again.
pub proof fn lemma_whitelist_restore(
    post: TipStreamers,
    restored: TipStreamers,
    asset: Ident,
    caller: Ident,
    payer: Ident,
    amount: i128,
)
    requires
        post.is_init(),
        restored.is_init(),
        restored.assets() == post.assets().push(asset),
        caller == payer,
        amount > 0,
    ensures
        restored.tip_check(caller, payer, asset, amount) is None,
{
    assert(restored.assets()[post.assets().len() as int] == asset);
    assert(restored.assets().contains(asset));
}

} // verus!
