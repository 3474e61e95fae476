//! The configuration snapshot the engine consumes, and the paging logic that edits it.
use vstd::arithmetic::div_mod::lemma_fundamental_div_mod_converse;
use vstd::prelude::*;

verus! {

/// A change requested from the controls: move between pages, or turn an encoder.
#[derive(Clone, Copy, Debug, PartialEq, Eq, Structural)]
pub enum ConfigEvent {
    PageChange { amount: i8 },
    EncoderChange { encoder: u8, amount: i8 },
}

/// One page of byte-valued parameters, one per encoder.
#[derive(Clone, Copy, Debug)]
pub struct Page<const ENCODER_AMOUNT: usize> {
    pub values: [u8; ENCODER_AMOUNT],
}

impl<const ENCODER_AMOUNT: usize> Page<ENCODER_AMOUNT> {
    /// A page with every value at the middle setting 127.
    pub fn new() -> (r: Page<ENCODER_AMOUNT>)
        ensures
            forall|i: int| 0 <= i < ENCODER_AMOUNT ==> r.values@[i] == 127,
    {
        Page { values: [127u8;ENCODER_AMOUNT] }
    }
}

/// A configuration snapshot: `PAGE_AMOUNT` pages of parameters.
#[derive(Clone, Copy, Debug)]
pub struct Config<const PAGE_AMOUNT: usize, const ENCODER_AMOUNT: usize> {
    pub pages: [Page<ENCODER_AMOUNT>; PAGE_AMOUNT],
}

impl<const PAGE_AMOUNT: usize, const ENCODER_AMOUNT: usize> Config<PAGE_AMOUNT, ENCODER_AMOUNT> {
    /// A configuration with every value at 127.
    pub fn new() -> (r: Config<PAGE_AMOUNT, ENCODER_AMOUNT>)
        ensures
            forall|p: int, i: int|
                0 <= p < PAGE_AMOUNT && 0 <= i < ENCODER_AMOUNT ==> r.pages@[p].values@[i] == 127,
    {
        Config { pages: [Page::new();PAGE_AMOUNT] }
    }
}

/// The value after adding a signed amount, clamped to 0-255.
pub open spec fn saturating_add_signed(value: u8, amount: i8) -> u8 {
    let v = value + amount;
    if v < 0 {
        0
    } else if v > 255 {
        255
    } else {
        v as u8
    }
}

/// The current configuration and the page the encoders edit.
pub struct ConfigManager<const PAGE_AMOUNT: usize, const ENCODER_AMOUNT: usize> {
    pub config: Config<PAGE_AMOUNT, ENCODER_AMOUNT>,
    pub current_page: usize,
}

impl<const PAGE_AMOUNT: usize, const ENCODER_AMOUNT: usize> ConfigManager<
    PAGE_AMOUNT,
    ENCODER_AMOUNT,
> {
    /// Every value at 127, on the first page.
    pub fn new() -> (r: ConfigManager<PAGE_AMOUNT, ENCODER_AMOUNT>)
        requires
            0 < PAGE_AMOUNT,
            0 < ENCODER_AMOUNT <= 255,
        ensures
            r.current_page == 0,
            forall|p: int, i: int|
                0 <= p < PAGE_AMOUNT && 0 <= i < ENCODER_AMOUNT ==> r.config.pages@[p].values@[i]
                    == 127,
    {
        ConfigManager { config: Config::new(), current_page: 0 }
    }

    /// Applies an event and returns whether the configuration changed (and so
    /// should be published). A page change moves the current page by `amount`,
    /// wrapping around; an encoder change adds `amount` to the value of encoder
    /// `encoder % ENCODER_AMOUNT` on the current page, clamped to 0-255.
    pub fn handle_event(&mut self, event: ConfigEvent) -> (changed: bool)
        requires
            0 < PAGE_AMOUNT,
            0 < ENCODER_AMOUNT <= 255,
            old(self).current_page < PAGE_AMOUNT,
        ensures
            final(self).current_page < PAGE_AMOUNT,
            match event {
                ConfigEvent::PageChange { amount } => {
                    &&& !changed
                    &&& final(self).current_page == (old(self).current_page + amount) % (
                    PAGE_AMOUNT as int)
                    &&& final(self).config.pages@ == old(self).config.pages@
                },
                ConfigEvent::EncoderChange { encoder, amount } => {
                    let p = old(self).current_page as int;
                    let e = (encoder as int) % (ENCODER_AMOUNT as int);
                    let values = old(self).config.pages@[p].values@;
                    &&& changed
                    &&& final(self).current_page == old(self).current_page
                    &&& forall|q: int|
                        0 <= q < PAGE_AMOUNT && q != p ==> final(self).config.pages@[q]
                            == old(self).config.pages@[q]
                    &&& final(self).config.pages@[p].values@ == values.update(
                        e,
                        saturating_add_signed(values[e], amount),
                    )
                },
            },
    {
        match event {
            ConfigEvent::PageChange { amount } => {
                let n: usize = PAGE_AMOUNT;
                let c: usize = self.current_page;
                // the amount reduced to a forward step in 0..n
                let step: usize = if amount >= 0 {
                    (amount as usize) % n
                } else {
                    let back: usize = ((-(amount as i16)) as usize) % n;
                    if back == 0 {
                        0
                    } else {
                        n - back
                    }
                };
                let wrapped: usize = if step >= n - c {
                    step - (n - c)
                } else {
                    c + step
                };
                proof {
                    let x = c as int + amount as int;
                    let pn = n as int;
                    if amount >= 0 {
                        let a = amount as int;
                        vstd::arithmetic::div_mod::lemma_fundamental_div_mod(a, pn);
                        let qa = a / pn;
                        let t: int = if step >= n - c { 1 } else { 0 };
                        assert(x == (qa + t) * pn + wrapped) by (nonlinear_arith)
                            requires
                                a == pn * qa + step,
                                x == c + a,
                                wrapped == c + step - t * pn,
                        ;
                        lemma_fundamental_div_mod_converse(x, pn, qa + t, wrapped as int);
                    } else {
                        let b = -(amount as int);
                        vstd::arithmetic::div_mod::lemma_fundamental_div_mod(b, pn);
                        let qb = b / pn;
                        let m = b % pn;
                        let t: int = if step >= n - c { 1 } else { 0 };
                        let u: int = if m == 0 { 0 } else { 1 };
                        assert(x == (t - u - qb) * pn + wrapped) by (nonlinear_arith)
                            requires
                                b == pn * qb + m,
                                step == u * pn - m,
                                x == c - b,
                                wrapped == c + step - t * pn,
                        ;
                        lemma_fundamental_div_mod_converse(x, pn, t - u - qb, wrapped as int);
                    }
                }
                self.current_page = wrapped as usize;
                false
            },
            ConfigEvent::EncoderChange { encoder, amount } => {
                let e: usize = (encoder % (ENCODER_AMOUNT as u8)) as usize;
                let p: usize = self.current_page;
                let mut page = self.config.pages[p];
                let v: i16 = page.values[e] as i16 + amount as i16;
                page.values[e] = if v < 0 {
                    0
                } else if v > 255 {
                    255
                } else {
                    v as u8
                };
                self.config.pages[p] = page;
                true
            },
        }
    }
}

} // verus!
