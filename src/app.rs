use vstd::prelude::*;
use vstd::string::*;
use crate::config::Config;
use crate::wallet::{Wallet, WalletView};
use crate::utils::{
    epoch_to_datetime, lamports_to_sol, shortify_sol_address, short_form, sol_text,
    clock_of,
};

verus! {

/// The title shown above the figures.
pub const TITLE: &'static str = "Solana balance monitor (q to exit)";

/// A rectangle of terminal cells.
#[derive(Clone, Copy, Debug, PartialEq, Eq, Structural)]
pub struct Area {
    pub x: u16,
    pub y: u16,
    pub width: u16,
    pub height: u16,
}

/// The row just below `a`.
pub open spec fn bottom(a: Area) -> int {
    a.y + a.height
}

/// `a` lies within the coordinates a terminal can have.
pub open spec fn fits(a: Area) -> bool {
    bottom(a) <= u16::MAX
}

/// The percentage lists this library lays out with: a 10/90/10 split, a
/// whole, and two halves.
pub open spec fn layout_percents(p: Seq<u16>) -> bool {
    p == seq![10u16, 90u16, 10u16] || p == seq![100u16] || p == seq![50u16, 50u16]
}

/// The rectangles into which ratatui's vertical layout cuts `area`, one for
/// each percentage of its height.
pub uninterp spec fn vertical_split(area: Area, percents: Seq<u16>) -> Seq<Area>;

/// Relies on ratatui::layout::Layout::vertical, given one
/// Constraint::Percentage for each entry of `percents`, and on Layout::split,
/// which solves the layout for `area` and gives one rectangle per constraint,
/// each as wide as `area` and at its left edge. With the default Flex::Start,
/// the spacers before and between the rectangles are held at zero far more
/// strongly than any percentage, so the rectangles stack from the top of the
/// area and stay inside it. The solver's result is a function of its input
/// where the optimum is unique, which holds of the three lists allowed here:
/// `[100]` and `[50, 50]` are met exactly (two halves round to within a row of
/// each other), and for `[10, 90, 10]` the weak pull towards equal sizes takes
/// the missing tenth from the middle.
#[verifier::external_body]
fn split_vertically(area: Area, percents: &Vec<u16>) -> (r: Vec<Area>)
    requires
        layout_percents(percents@),
    ensures
        r@ == vertical_split(area, percents@),
        r@.len() == percents@.len(),
        forall|i: int| 0 <= i < r@.len() ==> #[trigger] r@[i].x == area.x && r@[i].width == area.width,
        fits(area) ==> r@[0].y == area.y,
        fits(area) ==> forall|i: int|
            0 < i < r@.len() ==> #[trigger] r@[i].y == r@[i - 1].y + r@[i - 1].height,
        fits(area) ==> bottom(r@.last()) <= bottom(area),
        fits(area) && percents@ != seq![10u16, 90u16, 10u16] ==> bottom(r@.last()) == bottom(area),
        fits(area) && percents@ == seq![50u16, 50u16] ==> -1 <= r@[0].height - r@[1].height <= 1,
{
    let rect = ratatui::layout::Rect { x: area.x, y: area.y, width: area.width, height: area.height };
    let layout = ratatui::layout::Layout::vertical(
        percents.iter().map(|p| ratatui::layout::Constraint::Percentage(*p)),
    );
    layout.split(rect).iter().map(|r| Area { x: r.x, y: r.y, width: r.width, height: r.height }).collect()
}

/// The figures' four lines for a wallet: its address, the starting and the
/// current balance (zero where none was sampled), and when it was last updated.
pub open spec fn text_lines(w: WalletView) -> Seq<Seq<char>> {
    seq![
        "Wallet: "@ + short_form(w.address),
        balance_line("Starting balance: "@, w.initial_lamports),
        balance_line("Current balance: "@, w.lamports),
        "Last updated: "@ + clock_of(w.updated).text(),
    ]
}

pub open spec fn balance_line(label: Seq<char>, lamports: Option<u64>) -> Seq<char> {
    label + sol_text(
        match lamports {
            Some(l) => l as nat,
            None => 0,
        },
    ) + " SOL"@
}

/// The monitor: this build's release information and the watched wallet.
pub struct App {
    pub config: Config,
    pub wallet: Wallet,
}

impl App {
    pub fn default(config: Config, wallet: Wallet) -> (r: App)
        ensures
            r.config == config,
            r.wallet == wallet,
    {
        App { config, wallet }
    }

    /// The regions of the screen: the body band, the middle of a 10/90/10 split
    /// of the height, cut into two stacked halves.
    pub open spec fn layout_of(area: Area) -> Seq<Seq<Area>> {
        let block = vertical_split(Self::body_band(area), seq![100u16])[0];
        seq![vertical_split(block, seq![50u16, 50u16])]
    }

    /// The body band: the middle of a 10/90/10 split of the area's height.
    pub open spec fn body_band(area: Area) -> Area {
        vertical_split(area, seq![10u16, 90u16, 10u16])[1]
    }

    /// Cuts the screen `area` into its regions, as `layout_of` says: two
    /// cells, as wide as the area, that stack and fill the body band, their
    /// heights within a row of each other.
    pub fn calculate_layout(&self, area: Area) -> (r: Vec<Vec<Area>>)
        ensures
            r@.len() == 1,
            r@[0]@ == Self::layout_of(area)[0],
            r@[0]@.len() == 2,
            r@[0]@[0].x == area.x && r@[0]@[0].width == area.width,
            r@[0]@[1].x == area.x && r@[0]@[1].width == area.width,
            Self::body_band(area).x == area.x && Self::body_band(area).width == area.width,
            fits(area) ==> area.y <= Self::body_band(area).y && bottom(Self::body_band(area))
                <= bottom(area),
            fits(area) ==> r@[0]@[0].y == Self::body_band(area).y,
            fits(area) ==> r@[0]@[1].y == r@[0]@[0].y + r@[0]@[0].height,
            fits(area) ==> r@[0]@[0].height + r@[0]@[1].height == Self::body_band(area).height,
            fits(area) ==> -1 <= r@[0]@[0].height - r@[0]@[1].height <= 1,
    {
        let outer: Vec<u16> = vec![10u16, 90u16, 10u16];
        let whole: Vec<u16> = vec![100u16];
        let halves: Vec<u16> = vec![50u16, 50u16];
        assert(outer@ =~= seq![10u16, 90u16, 10u16]);
        assert(whole@ =~= seq![100u16]);
        assert(halves@ =~= seq![50u16, 50u16]);
        let bands = split_vertically(area, &outer);
        let blocks = split_vertically(bands[1], &whole);
        let cells = split_vertically(blocks[0], &halves);
        proof {
            if fits(area) {
                assert(bands@[1].y == bands@[0].y + bands@[0].height);
                assert(bands@[2].y == bands@[1].y + bands@[1].height);
                assert(cells@[1].y == cells@[0].y + cells@[0].height);
            }
        }
        vec![cells]
    }

    /// The four lines of figures shown in the lower region.
    pub fn render(&self) -> (r: Vec<String>)
        ensures
            r@.len() == 4,
            r@[0]@ == text_lines(self.wallet@)[0],
            r@[1]@ == text_lines(self.wallet@)[1],
            r@[2]@ == text_lines(self.wallet@)[2],
            r@[3]@ == text_lines(self.wallet@)[3],
    {
        let mut wallet_line = String::from_str("Wallet: ");
        wallet_line.append(shortify_sol_address(self.wallet.address.as_str()).as_str());
        let starting = balance_text("Starting balance: ", self.wallet.initial_lamports);
        let current = balance_text("Current balance: ", self.wallet.lamports);
        let clock = epoch_to_datetime(self.wallet.updated);
        let mut clock_line = String::from_str("Last updated: ");
        clock_line.append(clock.format().as_str());
        vec![wallet_line, starting, current, clock_line]
    }
}

fn balance_text(label: &str, lamports: Option<u64>) -> (r: String)
    ensures
        r@ == balance_line(label@, lamports),
{
    let mut r = String::from_str(label);
    let l = match lamports {
        Some(l) => l,
        None => 0,
    };
    r.append(lamports_to_sol(l).as_str());
    r.append(" SOL");
    r
}

} // verus!
