use vstd::prelude::*;

verus! {

pub const VERSION: &'static str = "0.1.0";

pub const REPOSITORY: &'static str = "https://github.com/vlad2030/solana-balance-monitor";

pub const AUTHOR: &'static str = "lalka2003";

pub const AUTHOR_LINK: &'static str = "https://t.me/chad_trade";

} // verus!
