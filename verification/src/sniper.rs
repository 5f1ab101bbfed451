use crate::address::Address;
use crate::bonding_curve::BondingCurveAccount;
use crate::config::{spec_config_valid, Config};
use crate::error::SniperError;
use crate::events::SniperEvent;
use crate::token_info::TokenInfo;
use vstd::prelude::*;

verus! {

/// First tracked-token index at or after `i` holding `mint`.
pub open spec fn spec_tracked_index_from(tokens: Seq<TokenInfo>, mint: Address, i: int) -> Option<
    int,
>
    decreases tokens.len() - i,
    when 0 <= i <= tokens.len()
{
    if i >= tokens.len() {
        None
    } else if tokens[i].mint == mint {
        Some(i)
    } else {
        spec_tracked_index_from(tokens, mint, i + 1)
    }
}

/// First tracked-token index holding `mint`.
pub open spec fn spec_tracked_index(tokens: Seq<TokenInfo>, mint: Address) -> Option<int> {
    spec_tracked_index_from(tokens, mint, 0)
}

/// The tracked-token search finds an index exactly when a token holds
/// `mint`, and then it names the first occurrence.
pub proof fn lemma_tracked_index_from(tokens: Seq<TokenInfo>, mint: Address, i: int)
    requires
        0 <= i <= tokens.len(),
    ensures
        match spec_tracked_index_from(tokens, mint, i) {
            Some(k) => i <= k < tokens.len() && tokens[k].mint == mint && forall|j: int|
                i <= j < k ==> tokens[j].mint != mint,
            None => forall|j: int| i <= j < tokens.len() ==> tokens[j].mint != mint,
        },
    decreases tokens.len() - i,
{
    if i < tokens.len() {
        lemma_tracked_index_from(tokens, mint, i + 1);
    }
}

/// First tracked-token index at or after `i` whose curve address is `curve`.
pub open spec fn spec_token_for_curve_from(tokens: Seq<TokenInfo>, curve: Address, i: int) -> Option<
    int,
>
    decreases tokens.len() - i,
    when 0 <= i <= tokens.len()
{
    if i >= tokens.len() {
        None
    } else if tokens[i].bonding_curve == curve {
        Some(i)
    } else {
        spec_token_for_curve_from(tokens, curve, i + 1)
    }
}

/// First tracked-token index whose derived curve address is `curve`.
pub open spec fn spec_token_for_curve(tokens: Seq<TokenInfo>, curve: Address) -> Option<int> {
    spec_token_for_curve_from(tokens, curve, 0)
}

/// First cache index at or after `i` holding curve address `curve`.
pub open spec fn spec_cache_index_from(
    cache: Seq<(Address, BondingCurveAccount)>,
    curve: Address,
    i: int,
) -> Option<int>
    decreases cache.len() - i,
    when 0 <= i <= cache.len()
{
    if i >= cache.len() {
        None
    } else if cache[i].0 == curve {
        Some(i)
    } else {
        spec_cache_index_from(cache, curve, i + 1)
    }
}

/// First cache index holding curve address `curve`.
pub open spec fn spec_cache_index(
    cache: Seq<(Address, BondingCurveAccount)>,
    curve: Address,
) -> Option<int> {
    spec_cache_index_from(cache, curve, 0)
}

/// The cache search finds an index exactly when an entry holds `curve`,
/// and then it names the first occurrence.
pub proof fn lemma_cache_index_from(
    cache: Seq<(Address, BondingCurveAccount)>,
    curve: Address,
    i: int,
)
    requires
        0 <= i <= cache.len(),
    ensures
        match spec_cache_index_from(cache, curve, i) {
            Some(k) => i <= k < cache.len() && cache[k].0 == curve && forall|j: int|
                i <= j < k ==> cache[j].0 != curve,
            None => forall|j: int| i <= j < cache.len() ==> cache[j].0 != curve,
        },
    decreases cache.len() - i,
{
    if i < cache.len() {
        lemma_cache_index_from(cache, curve, i + 1);
    }
}

/// First bought-set index at or after `i` holding `mint`.
pub open spec fn spec_bought_index_from(bought: Seq<Address>, mint: Address, i: int) -> Option<int>
    decreases bought.len() - i,
    when 0 <= i <= bought.len()
{
    if i >= bought.len() {
        None
    } else if bought[i] == mint {
        Some(i)
    } else {
        spec_bought_index_from(bought, mint, i + 1)
    }
}

/// First bought-set index holding `mint`.
pub open spec fn spec_bought_index(bought: Seq<Address>, mint: Address) -> Option<int> {
    spec_bought_index_from(bought, mint, 0)
}

/// The bought-set search finds an index exactly when the set holds the
/// mint, and then it names the first occurrence.
pub proof fn lemma_bought_index_from(bought: Seq<Address>, mint: Address, i: int)
    requires
        0 <= i <= bought.len(),
    ensures
        match spec_bought_index_from(bought, mint, i) {
            Some(k) => i <= k < bought.len() && bought[k] == mint && forall|j: int|
                i <= j < k ==> bought[j] != mint,
            None => forall|j: int| i <= j < bought.len() ==> bought[j] != mint,
        },
    decreases bought.len() - i,
{
    if i < bought.len() {
        lemma_bought_index_from(bought, mint, i + 1);
    }
}

/// Outcome of the tracked-token lookup after a creation event: either the
/// cached curve snapshot, or the curve address that must be fetched live.
#[derive(Debug)]
pub enum CurveLookup {
    Cached(BondingCurveAccount),
    NeedsFetch(Address),
}

/// What the engine decides when a buy trigger is delivered.
#[derive(Debug, Clone, Copy, PartialEq, Eq, Structural)]
pub enum BuyAdmission {
    /// The mint is already in the bought set; nothing is executed.
    AlreadyBought,
    /// Single-buy test mode and a buy has already succeeded.
    SkipTestMode,
    /// No wallet is configured; nothing is executed.
    NoWallet,
    /// Execute: the mint has been put in the bought set first.
    Proceed,
}

/// The buy-guard face of the engine state: what decides whether a buy for
/// a mint may be executed.
pub struct BuyGuardState {
    pub bought: Seq<Address>,
    pub test_mode_single_buy: bool,
    pub has_bought_once: bool,
    pub wallet_configured: bool,
}

/// The orchestrating decision engine: tracks known tokens, caches curve
/// snapshots, admits at most one in-flight buy per mint, and leaves all
/// waiting, fetching and submission to its caller. Its state is owned by
/// one consumer; every transition is a plain function of the state and
/// the delivered values.
#[derive(Debug)]
pub struct Sniper {
    pub config: Config,
    pub tracked_tokens: Vec<TokenInfo>,
    pub bonding_curve_cache: Vec<(Address, BondingCurveAccount)>,
    pub bought_tokens: Vec<Address>,
    pub wallet_configured: bool,
    pub test_mode_single_buy: bool,
    pub has_bought_once: bool,
}

impl Sniper {
    /// Tracked mints, cache keys and bought mints are each free of
    /// duplicates.
    pub open spec fn wf(&self) -> bool {
        &&& forall|i: int, j: int|
            0 <= i < j < self.tracked_tokens@.len() ==> self.tracked_tokens@[i].mint
                != self.tracked_tokens@[j].mint
        &&& forall|i: int, j: int|
            0 <= i < j < self.bonding_curve_cache@.len() ==> self.bonding_curve_cache@[i].0
                != self.bonding_curve_cache@[j].0
        &&& forall|i: int, j: int|
            0 <= i < j < self.bought_tokens@.len() ==> self.bought_tokens@[i]
                != self.bought_tokens@[j]
    }

    /// The buy-guard face of this state.
    pub open spec fn buy_guard(&self) -> BuyGuardState {
        BuyGuardState {
            bought: self.bought_tokens@,
            test_mode_single_buy: self.test_mode_single_buy,
            has_bought_once: self.has_bought_once,
            wallet_configured: self.wallet_configured,
        }
    }

    /// A new engine over a validated configuration: empty maps and sets,
    /// no wallet, test mode off. Rejects exactly the configurations that
    /// validation rejects.
    pub fn new(config: Config) -> (r: Result<Sniper, SniperError>)
        ensures
            spec_config_valid(config) ==> (r matches Ok(s) && {
                &&& s.config == config
                &&& s.tracked_tokens@.len() == 0
                &&& s.bonding_curve_cache@.len() == 0
                &&& s.bought_tokens@.len() == 0
                &&& !s.wallet_configured
                &&& !s.test_mode_single_buy
                &&& !s.has_bought_once
                &&& s.wf()
            }),
            !spec_config_valid(config) ==> (r matches Err(e) && e is InvalidConfig),
    {
        match config.validate() {
            Ok(_) => Ok(
                Sniper {
                    config,
                    tracked_tokens: Vec::new(),
                    bonding_curve_cache: Vec::new(),
                    bought_tokens: Vec::new(),
                    wallet_configured: false,
                    test_mode_single_buy: false,
                    has_bought_once: false,
                },
            ),
            Err(e) => Err(e),
        }
    }

    /// Record that a signing wallet has been configured.
    pub fn set_wallet(&mut self)
        ensures
            *final(self) == (Sniper { wallet_configured: true, ..*old(self) }),
    {
        self.wallet_configured = true;
    }

    /// Stop after the first successful buy.
    pub fn enable_test_mode(&mut self)
        ensures
            *final(self) == (Sniper { test_mode_single_buy: true, ..*old(self) }),
    {
        self.test_mode_single_buy = true;
    }

    /// How many tokens are tracked; the second count is reserved.
    pub fn get_stats(&self) -> (r: (usize, usize))
        ensures
            r.0 == self.tracked_tokens@.len(),
            r.1 == 0,
    {
        (self.tracked_tokens.len(), 0)
    }

    /// True exactly when `mint` is in the bought set.
    #[verifier::loop_isolation(false)]
    fn bought_contains(&self, mint: &Address) -> (r: bool)
        ensures
            r == self.bought_tokens@.contains(*mint),
    {
        let n = self.bought_tokens.len();
        let mut k: usize = 0;
        while k < n
            invariant
                n == self.bought_tokens@.len(),
                k <= n,
                forall|j: int| 0 <= j < k ==> self.bought_tokens@[j] != *mint,
            decreases n - k,
        {
            if self.bought_tokens[k] == *mint {
                return true;
            }
            k += 1;
        }
        false
    }

    /// First tracked-token index holding `mint`, when one exists.
    #[verifier::loop_isolation(false)]
    fn find_tracked_index(&self, mint: &Address) -> (r: Option<usize>)
        ensures
            match r {
                Some(k) => spec_tracked_index(self.tracked_tokens@, *mint) == Some(k as int),
                None => spec_tracked_index(self.tracked_tokens@, *mint) is None,
            },
    {
        let n = self.tracked_tokens.len();
        let mut k: usize = 0;
        while k < n
            invariant
                k <= n,
                spec_tracked_index(self.tracked_tokens@, *mint) == spec_tracked_index_from(
                    self.tracked_tokens@,
                    *mint,
                    k as int,
                ),
            decreases n - k,
        {
            if self.tracked_tokens[k].mint == *mint {
                return Some(k);
            }
            k += 1;
        }
        None
    }

    /// First bought-set index holding `mint`, when one exists.
    #[verifier::loop_isolation(false)]
    fn find_bought_index(&self, mint: &Address) -> (r: Option<usize>)
        ensures
            match r {
                Some(k) => spec_bought_index(self.bought_tokens@, *mint) == Some(k as int),
                None => spec_bought_index(self.bought_tokens@, *mint) is None,
            },
    {
        let n = self.bought_tokens.len();
        let mut k: usize = 0;
        while k < n
            invariant
                k <= n,
                spec_bought_index(self.bought_tokens@, *mint) == spec_bought_index_from(
                    self.bought_tokens@,
                    *mint,
                    k as int,
                ),
            decreases n - k,
        {
            if self.bought_tokens[k] == *mint {
                return Some(k);
            }
            k += 1;
        }
        None
    }

    /// Record a discovered token, replacing any record with the same
    /// mint, then look its curve address up in the cache: the cached
    /// snapshot when one exists, else the address to fetch.
    #[verifier::loop_isolation(false)]
    pub fn handle_token_creation(&mut self, token_info: TokenInfo) -> (r: CurveLookup)
        requires
            old(self).wf(),
        ensures
            final(self).wf(),
            final(self).config == old(self).config,
            final(self).bonding_curve_cache == old(self).bonding_curve_cache,
            final(self).bought_tokens == old(self).bought_tokens,
            final(self).wallet_configured == old(self).wallet_configured,
            final(self).test_mode_single_buy == old(self).test_mode_single_buy,
            final(self).has_bought_once == old(self).has_bought_once,
            spec_tracked_index(old(self).tracked_tokens@, token_info.mint) matches Some(i)
                ==> final(self).tracked_tokens@ == old(self).tracked_tokens@.update(
                i,
                token_info,
            ),
            spec_tracked_index(old(self).tracked_tokens@, token_info.mint) is None ==> final(self).tracked_tokens@ == old(self).tracked_tokens@.push(token_info),
            spec_cache_index(old(self).bonding_curve_cache@, token_info.bonding_curve)
                matches Some(j) ==> (r matches CurveLookup::Cached(c)
                && c == old(self).bonding_curve_cache@[j].1),
            spec_cache_index(old(self).bonding_curve_cache@, token_info.bonding_curve) is None
                ==> (r matches CurveLookup::NeedsFetch(a) && a == token_info.bonding_curve),
    {
        let curve_addr = token_info.bonding_curve;
        let ghost tracked0 = self.tracked_tokens@;
        let n = self.tracked_tokens.len();
        let mut k: usize = 0;
        let mut replaced = false;
        while k < n && !replaced
            invariant
                old(self).wf(),
                n == tracked0.len(),
                k <= n,
                self.config == old(self).config,
                self.bonding_curve_cache == old(self).bonding_curve_cache,
                self.bought_tokens == old(self).bought_tokens,
                self.wallet_configured == old(self).wallet_configured,
                self.test_mode_single_buy == old(self).test_mode_single_buy,
                self.has_bought_once == old(self).has_bought_once,
                !replaced ==> {
                    &&& self.tracked_tokens@ == tracked0
                    &&& spec_tracked_index(tracked0, token_info.mint) == spec_tracked_index_from(
                        tracked0,
                        token_info.mint,
                        k as int,
                    )
                },
                replaced ==> {
                    &&& spec_tracked_index(tracked0, token_info.mint) == Some((k - 1) as int)
                    &&& self.tracked_tokens@ == tracked0.update((k - 1) as int, token_info)
                },
            decreases n - k,
        {
            if self.tracked_tokens[k].mint == token_info.mint {
                self.tracked_tokens.set(k, token_info.clone());
                replaced = true;
            }
            k += 1;
        }
        if !replaced {
            self.tracked_tokens.push(token_info);
        }
        proof {
            let tracked1 = self.tracked_tokens@;
            assert forall|i: int, j: int| 0 <= i < j < tracked1.len() implies tracked1[i].mint
                != tracked1[j].mint by {
                lemma_tracked_index_from(tracked0, token_info.mint, 0);
                if i < tracked0.len() && j < tracked0.len() {
                    assert(tracked0[i].mint != tracked0[j].mint);
                }
            }
        }
        let ghost cache0 = self.bonding_curve_cache@;
        let cn = self.bonding_curve_cache.len();
        let mut c: usize = 0;
        while c < cn
            invariant
                cn == cache0.len(),
                c <= cn,
                self.bonding_curve_cache@ == cache0,
                spec_cache_index(cache0, curve_addr) == spec_cache_index_from(
                    cache0,
                    curve_addr,
                    c as int,
                ),
            decreases cn - c,
        {
            if self.bonding_curve_cache[c].0 == curve_addr {
                return CurveLookup::Cached(self.bonding_curve_cache[c].1);
            }
            c += 1;
        }
        CurveLookup::NeedsFetch(curve_addr)
    }

    /// Overwrite the cache entry for `bonding_curve` with `data`, then
    /// return a copy of the first tracked token whose derived curve
    /// address equals it, when one exists.
    #[verifier::loop_isolation(false)]
    pub fn handle_bonding_curve_update(
        &mut self,
        bonding_curve: Address,
        data: BondingCurveAccount,
    ) -> (r: Option<TokenInfo>)
        requires
            old(self).wf(),
        ensures
            final(self).wf(),
            final(self).config == old(self).config,
            final(self).tracked_tokens == old(self).tracked_tokens,
            final(self).bought_tokens == old(self).bought_tokens,
            final(self).wallet_configured == old(self).wallet_configured,
            final(self).test_mode_single_buy == old(self).test_mode_single_buy,
            final(self).has_bought_once == old(self).has_bought_once,
            spec_cache_index(old(self).bonding_curve_cache@, bonding_curve) matches Some(i)
                ==> final(self).bonding_curve_cache@ == old(self).bonding_curve_cache@.update(
                i,
                (bonding_curve, data),
            ),
            spec_cache_index(old(self).bonding_curve_cache@, bonding_curve) is None ==> final(self).bonding_curve_cache@ == old(self).bonding_curve_cache@.push(
                (bonding_curve, data),
            ),
            spec_token_for_curve(old(self).tracked_tokens@, bonding_curve) matches Some(i) ==> (
            r matches Some(t) && t == old(self).tracked_tokens@[i]),
            spec_token_for_curve(old(self).tracked_tokens@, bonding_curve) is None ==> r is None,
    {
        let ghost cache0 = self.bonding_curve_cache@;
        let cn = self.bonding_curve_cache.len();
        let mut c: usize = 0;
        let mut updated = false;
        while c < cn && !updated
            invariant
                old(self).wf(),
                cn == cache0.len(),
                c <= cn,
                self.config == old(self).config,
                self.tracked_tokens == old(self).tracked_tokens,
                self.bought_tokens == old(self).bought_tokens,
                self.wallet_configured == old(self).wallet_configured,
                self.test_mode_single_buy == old(self).test_mode_single_buy,
                self.has_bought_once == old(self).has_bought_once,
                !updated ==> {
                    &&& self.bonding_curve_cache@ == cache0
                    &&& spec_cache_index(cache0, bonding_curve) == spec_cache_index_from(
                        cache0,
                        bonding_curve,
                        c as int,
                    )
                },
                updated ==> {
                    &&& spec_cache_index(cache0, bonding_curve) == Some((c - 1) as int)
                    &&& self.bonding_curve_cache@ == cache0.update(
                        (c - 1) as int,
                        (bonding_curve, data),
                    )
                },
            decreases cn - c,
        {
            if self.bonding_curve_cache[c].0 == bonding_curve {
                self.bonding_curve_cache.set(c, (bonding_curve, data));
                updated = true;
            }
            c += 1;
        }
        if !updated {
            self.bonding_curve_cache.push((bonding_curve, data));
        }
        proof {
            let cache1 = self.bonding_curve_cache@;
            assert forall|i: int, j: int| 0 <= i < j < cache1.len() implies cache1[i].0
                != cache1[j].0 by {
                lemma_cache_index_from(cache0, bonding_curve, 0);
                if i < cache0.len() && j < cache0.len() {
                    assert(cache0[i].0 != cache0[j].0);
                }
            }
        }
        let ghost tokens = self.tracked_tokens@;
        let n = self.tracked_tokens.len();
        let mut k: usize = 0;
        while k < n
            invariant
                n == tokens.len(),
                k <= n,
                self.tracked_tokens@ == tokens,
                spec_token_for_curve(tokens, bonding_curve) == spec_token_for_curve_from(
                    tokens,
                    bonding_curve,
                    k as int,
                ),
            decreases n - k,
        {
            if self.tracked_tokens[k].bonding_curve == bonding_curve {
                return Some(self.tracked_tokens[k].clone());
            }
            k += 1;
        }
        None
    }

    /// True when the shared threshold logic would emit a buy trigger for
    /// `mint` given the USD conversion's outcome: the conversion
    /// succeeded, the value reaches the configured threshold, the mint is
    /// not already bought, and single-buy test mode does not veto it.
    pub open spec fn spec_should_trigger(
        &self,
        mint: Address,
        usd_cap_cents: Option<u64>,
    ) -> bool {
        &&& usd_cap_cents matches Some(u) && u >= self.config.market_cap_threshold_usd_cents
        &&& !self.bought_tokens@.contains(mint)
        &&& !(self.test_mode_single_buy && self.has_bought_once)
    }

    /// The shared threshold logic: given a token's market cap in base
    /// units and its USD conversion (when the price lookup succeeded),
    /// emit at most one buy trigger carrying the token and the configured
    /// buy amount. A failed conversion changes nothing and emits nothing.
    pub fn apply_threshold(
        &self,
        token_info: &TokenInfo,
        market_cap_sol: u64,
        usd_cap_cents: Option<u64>,
    ) -> (r: Option<SniperEvent>)
        ensures
            self.spec_should_trigger(token_info.mint, usd_cap_cents) <==> r is Some,
            r matches Some(e) ==> e matches SniperEvent::BuyTriggered {
                token_info: t,
                market_cap: mc,
                buy_amount: ba,
            } && t == *token_info && mc == market_cap_sol && ba == self.config.buy_amount_sol,
    {
        let meets = match usd_cap_cents {
            Some(u) => u >= self.config.market_cap_threshold_usd_cents,
            None => false,
        };
        if !meets {
            return None;
        }
        if self.bought_contains(&token_info.mint) {
            return None;
        }
        if self.test_mode_single_buy && self.has_bought_once {
            return None;
        }
        Some(
            SniperEvent::BuyTriggered {
                token_info: token_info.clone(),
                market_cap: market_cap_sol,
                buy_amount: self.config.buy_amount_sol,
            },
        )
    }

    /// Admit or refuse a delivered buy trigger for `mint`, and on
    /// admission insert the mint into the bought set before anything is
    /// executed — the ordering that rules out duplicate buys.
    #[verifier::loop_isolation(false)]
    pub fn begin_buy(&mut self, mint: Address) -> (r: BuyAdmission)
        requires
            old(self).wf(),
        ensures
            final(self).wf(),
            final(self).config == old(self).config,
            final(self).tracked_tokens == old(self).tracked_tokens,
            final(self).bonding_curve_cache == old(self).bonding_curve_cache,
            final(self).wallet_configured == old(self).wallet_configured,
            final(self).test_mode_single_buy == old(self).test_mode_single_buy,
            final(self).has_bought_once == old(self).has_bought_once,
            final(self).buy_guard() == spec_begin_buy(old(self).buy_guard(), mint).0,
            (r == BuyAdmission::Proceed) == spec_begin_buy(old(self).buy_guard(), mint).1,
            old(self).bought_tokens@.contains(mint) ==> r == BuyAdmission::AlreadyBought,
            !old(self).bought_tokens@.contains(mint) && old(self).test_mode_single_buy && old(self).has_bought_once ==> r == BuyAdmission::SkipTestMode,
            !old(self).bought_tokens@.contains(mint) && !(old(self).test_mode_single_buy
                && old(self).has_bought_once) && !old(self).wallet_configured
                ==> r == BuyAdmission::NoWallet,
    {
        if self.bought_contains(&mint) {
            return BuyAdmission::AlreadyBought;
        }
        if self.test_mode_single_buy && self.has_bought_once {
            return BuyAdmission::SkipTestMode;
        }
        if !self.wallet_configured {
            return BuyAdmission::NoWallet;
        }
        let ghost bought0 = self.bought_tokens@;
        self.bought_tokens.push(mint);
        proof {
            let bought1 = self.bought_tokens@;
            assert forall|i: int, j: int| 0 <= i < j < bought1.len() implies bought1[i]
                != bought1[j] by {
                if j < bought1.len() - 1 {
                    assert(bought0[i] != bought0[j]);
                } else {
                    assert(bought1[j] == mint);
                    assert(!bought0.contains(mint));
                    assert(bought0[i] != mint);
                }
            }
            assert(self.buy_guard() == spec_begin_buy(old(self).buy_guard(), mint).0);
        }
        BuyAdmission::Proceed
    }

    /// Record a buy's outcome. Success marks the engine as having bought
    /// once, drops the token from the tracked map, keeps the mint in the
    /// bought set, and asks for a halt exactly in single-buy test mode.
    /// Failure removes the mint from the bought set, so a later
    /// qualifying event may trigger a fresh attempt.
    #[verifier::loop_isolation(false)]
    pub fn complete_buy(&mut self, mint: Address, success: bool) -> (halt: bool)
        requires
            old(self).wf(),
        ensures
            final(self).wf(),
            final(self).config == old(self).config,
            final(self).bonding_curve_cache == old(self).bonding_curve_cache,
            final(self).wallet_configured == old(self).wallet_configured,
            final(self).test_mode_single_buy == old(self).test_mode_single_buy,
            final(self).buy_guard() == spec_complete_buy(old(self).buy_guard(), mint, success),
            success ==> {
                &&& final(self).has_bought_once
                &&& final(self).bought_tokens == old(self).bought_tokens
                &&& (spec_tracked_index(old(self).tracked_tokens@, mint) matches Some(i)
                    ==> final(self).tracked_tokens@ == old(self).tracked_tokens@.remove(i))
                &&& (spec_tracked_index(old(self).tracked_tokens@, mint) is None ==> final(self).tracked_tokens == old(self).tracked_tokens)
                &&& halt == old(self).test_mode_single_buy
            },
            !success ==> {
                &&& final(self).tracked_tokens == old(self).tracked_tokens
                &&& final(self).has_bought_once == old(self).has_bought_once
                &&& (spec_bought_index(old(self).bought_tokens@, mint) matches Some(i)
                    ==> final(self).bought_tokens@ == old(self).bought_tokens@.remove(i))
                &&& (spec_bought_index(old(self).bought_tokens@, mint) is None ==> final(self).bought_tokens == old(self).bought_tokens)
                &&& !halt
            },
    {
        if success {
            self.has_bought_once = true;
            let ghost tracked0 = self.tracked_tokens@;
            match self.find_tracked_index(&mint) {
                Some(i) => {
                    proof {
                        lemma_tracked_index_from(tracked0, mint, 0);
                    }
                    self.tracked_tokens.remove(i);
                    proof {
                        tracked0.remove_ensures(i as int);
                        let tracked1 = self.tracked_tokens@;
                        assert forall|a: int, b: int| 0 <= a < b < tracked1.len() implies
                            tracked1[a].mint != tracked1[b].mint by {
                            assert(tracked1[a] == tracked0[
                                if a < i as int {
                                    a
                                } else {
                                    a + 1
                                }
                            ]);
                            assert(tracked1[b] == tracked0[
                                if b < i as int {
                                    b
                                } else {
                                    b + 1
                                }
                            ]);
                        }
                    }
                },
                None => {},
            }
            proof {
                assert(self.buy_guard() == spec_complete_buy(old(self).buy_guard(), mint, true));
            }
            self.test_mode_single_buy
        } else {
            let ghost bought0 = self.bought_tokens@;
            match self.find_bought_index(&mint) {
                Some(i) => {
                    proof {
                        lemma_bought_index_from(bought0, mint, 0);
                    }
                    self.bought_tokens.remove(i);
                    proof {
                        bought0.remove_ensures(i as int);
                        let bought1 = self.bought_tokens@;
                        assert forall|a: int, b: int| 0 <= a < b < bought1.len() implies
                            bought1[a] != bought1[b] by {
                            assert(bought1[a] == bought0[
                                if a < i as int {
                                    a
                                } else {
                                    a + 1
                                }
                            ]);
                            assert(bought1[b] == bought0[
                                if b < i as int {
                                    b
                                } else {
                                    b + 1
                                }
                            ]);
                        }
                    }
                },
                None => {},
            }
            proof {
                assert(self.buy_guard() == spec_complete_buy(old(self).buy_guard(), mint, false));
            }
            false
        }
    }
}

/// Spec-level admission: whether a buy for `mint` is admitted, and the
/// guard state after the decision. Admission requires that the mint is
/// not already bought, that single-buy test mode does not veto it, and
/// that a wallet is configured; it inserts the mint into the bought set.
pub open spec fn spec_begin_buy(g: BuyGuardState, mint: Address) -> (BuyGuardState, bool) {
    if g.bought.contains(mint) {
        (g, false)
    } else if g.test_mode_single_buy && g.has_bought_once {
        (g, false)
    } else if !g.wallet_configured {
        (g, false)
    } else {
        (BuyGuardState { bought: g.bought.push(mint), ..g }, true)
    }
}

/// Spec-level completion: success records the first buy and keeps the
/// mint bought; failure removes the mint's first occurrence from the
/// bought set.
pub open spec fn spec_complete_buy(g: BuyGuardState, mint: Address, success: bool) -> BuyGuardState {
    if success {
        BuyGuardState { has_bought_once: true, ..g }
    } else {
        match spec_bought_index(g.bought, mint) {
            Some(i) => BuyGuardState { bought: g.bought.remove(i), ..g },
            None => g,
        }
    }
}

/// One step of the buy path: a trigger delivery being admitted or
/// refused, or a buy's outcome being recorded.
pub enum BuyStep {
    Begin { mint: Address },
    Complete { mint: Address, success: bool },
}

/// The guard state after running a sequence of buy steps.
pub open spec fn spec_run_buy_steps(g: BuyGuardState, steps: Seq<BuyStep>) -> BuyGuardState
    decreases steps.len(),
{
    if steps.len() == 0 {
        g
    } else {
        let g1 = match steps[0] {
            BuyStep::Begin { mint } => spec_begin_buy(g, mint).0,
            BuyStep::Complete { mint, success } => spec_complete_buy(g, mint, success),
        };
        spec_run_buy_steps(g1, steps.drop_first())
    }
}

/// How many steps of the run admit a buy for `mint`.
pub open spec fn spec_count_admitted(g: BuyGuardState, steps: Seq<BuyStep>, mint: Address) -> nat
    decreases steps.len(),
{
    if steps.len() == 0 {
        0
    } else {
        let admitted: nat = if steps[0] matches BuyStep::Begin { mint: m } && m == mint
            && spec_begin_buy(g, mint).1 {
            1
        } else {
            0
        };
        let g1 = match steps[0] {
            BuyStep::Begin { mint: m } => spec_begin_buy(g, m).0,
            BuyStep::Complete { mint: m, success } => spec_complete_buy(g, m, success),
        };
        admitted + spec_count_admitted(g1, steps.drop_first(), mint)
    }
}

/// True when no step of the run records a failed buy for `mint`.
pub open spec fn spec_no_failed_buy(steps: Seq<BuyStep>, mint: Address) -> bool {
    forall|i: int|
        0 <= i < steps.len() ==> !(#[trigger] steps[i] matches BuyStep::Complete {
            mint: m,
            success,
        } && m == mint && !success)
}

/// Removing one occurrence of another value keeps `mint` in the set.
proof fn lemma_remove_keeps_other(s: Seq<Address>, i: int, mint: Address)
    requires
        0 <= i < s.len(),
        s[i] != mint,
        s.contains(mint),
    ensures
        s.remove(i).contains(mint),
{
    let j = choose|j: int| 0 <= j < s.len() && s[j] == mint;
    s.remove_ensures(i);
    if j < i {
        assert(s.remove(i)[j] == mint);
    } else {
        assert(s.remove(i)[j - 1] == mint);
    }
}

/// While `mint` stays in the bought set — and it leaves it only through a
/// failed buy — no further buy for it is admitted: the run admits zero
/// buys and the mint is still in the set afterwards.
pub proof fn lemma_no_admission_while_bought(
    g: BuyGuardState,
    steps: Seq<BuyStep>,
    mint: Address,
)
    requires
        g.bought.contains(mint),
        spec_no_failed_buy(steps, mint),
    ensures
        spec_count_admitted(g, steps, mint) == 0,
        spec_run_buy_steps(g, steps).bought.contains(mint),
    decreases steps.len(),
{
    if steps.len() > 0 {
        let g1 = match steps[0] {
            BuyStep::Begin { mint: m } => spec_begin_buy(g, m).0,
            BuyStep::Complete { mint: m, success } => spec_complete_buy(g, m, success),
        };
        match steps[0] {
            BuyStep::Begin { mint: m } => {
                if !spec_begin_buy(g, m).1 {
                } else {
                    assert(g1.bought == g.bought.push(m));
                    assert(g.bought.contains(mint));
                    let j = choose|j: int| 0 <= j < g.bought.len() && g.bought[j] == mint;
                    assert(g1.bought[j] == mint);
                }
            },
            BuyStep::Complete { mint: m, success } => {
                if !success {
                    assert(m != mint);
                    match spec_bought_index(g.bought, m) {
                        Some(i) => {
                            lemma_bought_index_from(g.bought, m, 0);
                            lemma_remove_keeps_other(g.bought, i, mint);
                        },
                        None => {},
                    }
                }
            },
        }
        assert(g1.bought.contains(mint));
        assert(spec_no_failed_buy(steps.drop_first(), mint)) by {
            assert(forall|i: int|
                0 <= i < steps.drop_first().len() ==> steps.drop_first()[i] == steps[i + 1]);
        }
        lemma_no_admission_while_bought(g1, steps.drop_first(), mint);
    }
}

/// At most one buy per mint: over any run of buy steps in which no buy
/// for `mint` is recorded as failed, at most one step admits a buy for
/// it. Admission puts the mint into the bought set before anything is
/// executed, a successful completion keeps it there, and only a recorded
/// failure releases it for another attempt.
pub proof fn lemma_at_most_one_buy(g: BuyGuardState, steps: Seq<BuyStep>, mint: Address)
    requires
        spec_no_failed_buy(steps, mint),
    ensures
        spec_count_admitted(g, steps, mint) <= 1,
    decreases steps.len(),
{
    if steps.len() > 0 {
        let g1 = match steps[0] {
            BuyStep::Begin { mint: m } => spec_begin_buy(g, m).0,
            BuyStep::Complete { mint: m, success } => spec_complete_buy(g, m, success),
        };
        let admitted_here = steps[0] matches BuyStep::Begin { mint: m } && m == mint
            && spec_begin_buy(g, mint).1;
        assert(spec_no_failed_buy(steps.drop_first(), mint)) by {
            assert(forall|i: int|
                0 <= i < steps.drop_first().len() ==> steps.drop_first()[i] == steps[i + 1]);
        }
        if admitted_here {
            assert(g1.bought == g.bought.push(mint));
            assert(g1.bought[g1.bought.len() - 1] == mint);
            assert(g1.bought.contains(mint));
            lemma_no_admission_while_bought(g1, steps.drop_first(), mint);
        } else {
            lemma_at_most_one_buy(g1, steps.drop_first(), mint);
        }
    }
}

} // verus!
