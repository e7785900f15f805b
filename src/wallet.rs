use vstd::prelude::*;

verus! {

/// What the monitor knows of the watched account.
pub struct Wallet {
    pub address: String,
    /// The most recent balance, in base units.
    pub lamports: Option<u64>,
    /// The first balance ever sampled, in base units.
    pub initial_lamports: Option<u64>,
    pub price: Option<u64>,
    /// When a sample was last attempted, in seconds since the Unix epoch.
    pub updated: u64,
}

/// The mathematical value of a [`Wallet`].
pub struct WalletView {
    pub address: Seq<char>,
    pub lamports: Option<u64>,
    pub initial_lamports: Option<u64>,
    pub price: Option<u64>,
    pub updated: u64,
}

impl View for Wallet {
    type V = WalletView;

    open spec fn view(&self) -> WalletView {
        WalletView {
            address: self.address@,
            lamports: self.lamports,
            initial_lamports: self.initial_lamports,
            price: self.price,
            updated: self.updated,
        }
    }
}

impl WalletView {
    /// The starting balance is known exactly when the current one is.
    pub open spec fn consistent(self) -> bool {
        self.initial_lamports is Some <==> self.lamports is Some
    }

    /// The balances after one sample: a success becomes the current balance
    /// (and the starting one, if none was recorded yet); a failure changes nothing.
    pub open spec fn with_sample(self, sample: Option<u64>) -> WalletView {
        match sample {
            Some(b) => WalletView {
                lamports: Some(b),
                initial_lamports: if self.initial_lamports is Some {
                    self.initial_lamports
                } else {
                    Some(b)
                },
                ..self
            },
            None => self,
        }
    }

    /// One iteration of the polling loop: the sample, then the time of the attempt.
    pub open spec fn step(self, sample: Option<u64>, now: u64) -> WalletView {
        WalletView { updated: now, ..self.with_sample(sample) }
    }

    /// Iterations in order, each a sample outcome and the clock reading taken with it.
    pub open spec fn run(self, iterations: Seq<(Option<u64>, u64)>) -> WalletView
        decreases iterations.len(),
    {
        if iterations.len() == 0 {
            self
        } else {
            let last = iterations.last();
            self.run(iterations.drop_last()).step(last.0, last.1)
        }
    }
}

/// The address given on the command line: the first argument after the program name.
pub open spec fn address_argument(args: Seq<String>) -> Seq<char> {
    if args.len() > 1 {
        args[1]@
    } else {
        Seq::empty()
    }
}

impl Wallet {
    /// A wallet with no sample yet, for the address among `args`
    /// (the program name, then the address), as of `now`.
    pub fn default(args: &Vec<String>, now: u64) -> (w: Wallet)
        ensures
            w@ == (WalletView {
                address: address_argument(args@),
                lamports: None,
                initial_lamports: None,
                price: None,
                updated: now,
            }),
    {
        let address = if args.len() > 1 {
            args[1].clone()
        } else {
            String::new()
        };
        Wallet { address, lamports: None, initial_lamports: None, price: None, updated: now }
    }

    /// Takes the outcome of the sample made before the loop starts; the time stays.
    /// Where it failed, both balances stay unknown (and show as zero) until the
    /// first successful sample of the loop records them together.
    pub fn take_first_sample(&mut self, sample: Option<u64>)
        ensures
            final(self)@ == old(self)@.with_sample(sample),
    {
        self.record_balance(sample);
    }

    /// Takes the outcome of one loop iteration's sample, made at `now`.
    pub fn record_sample(&mut self, sample: Option<u64>, now: u64)
        ensures
            final(self)@ == old(self)@.step(sample, now),
    {
        self.record_balance(sample);
        self.updated = now;
    }

    fn record_balance(&mut self, sample: Option<u64>)
        ensures
            final(self)@ == old(self)@.with_sample(sample),
    {
        if let Some(b) = sample {
            self.lamports = Some(b);
            if self.initial_lamports.is_none() {
                self.initial_lamports = Some(b);
            }
        }
    }
}

/// A balance that has been sampled once stays known, whatever samples follow.
pub proof fn lemma_current_stays_defined(w: WalletView, iterations: Seq<(Option<u64>, u64)>)
    requires
        w.lamports is Some,
    ensures
        w.run(iterations).lamports is Some,
    decreases iterations.len(),
{
    if iterations.len() > 0 {
        lemma_current_stays_defined(w, iterations.drop_last());
    }
}

/// Once recorded, the starting balance never changes, whatever samples follow.
pub proof fn lemma_initial_fixed(w: WalletView, iterations: Seq<(Option<u64>, u64)>)
    requires
        w.initial_lamports is Some,
    ensures
        w.run(iterations).initial_lamports == w.initial_lamports,
    decreases iterations.len(),
{
    if iterations.len() > 0 {
        lemma_initial_fixed(w, iterations.drop_last());
    }
}

/// Every iteration keeps the two balances consistent: the starting balance
/// is known before a current one is shown.
pub proof fn lemma_run_consistent(w: WalletView, iterations: Seq<(Option<u64>, u64)>)
    requires
        w.consistent(),
    ensures
        w.run(iterations).consistent(),
    decreases iterations.len(),
{
    if iterations.len() > 0 {
        lemma_run_consistent(w, iterations.drop_last());
    }
}

/// Each iteration stamps the wallet with its clock reading, whether the sample
/// succeeded or not: where the clock advances between
/// iterations, the time of the last update after `i` iterations is below that after `j > i`.
pub proof fn lemma_updated_advances(
    w: WalletView,
    iterations: Seq<(Option<u64>, u64)>,
    i: int,
    j: int,
)
    requires
        1 <= i < j <= iterations.len(),
        forall|k: int| 0 < k < iterations.len() ==> iterations[k - 1].1 < #[trigger] iterations[k].1,
    ensures
        w.run(iterations.subrange(0, i)).updated < w.run(iterations.subrange(0, j)).updated,
        w.run(iterations.subrange(0, j)).updated == iterations[j - 1].1,
{
    let a = iterations.subrange(0, i);
    let b = iterations.subrange(0, j);
    assert(a.drop_last() =~= iterations.subrange(0, i - 1));
    assert(b.drop_last() =~= iterations.subrange(0, j - 1));
    lemma_clock_increasing(iterations, i - 1, j - 1);
}

proof fn lemma_clock_increasing(iterations: Seq<(Option<u64>, u64)>, i: int, j: int)
    requires
        0 <= i <= j < iterations.len(),
        forall|k: int| 0 < k < iterations.len() ==> iterations[k - 1].1 < #[trigger] iterations[k].1,
    ensures
        i < j ==> iterations[i].1 < iterations[j].1,
    decreases j - i,
{
    if i < j {
        lemma_clock_increasing(iterations, i, j - 1);
        assert(iterations[j - 1].1 < iterations[j].1);
    }
}

} // verus!
