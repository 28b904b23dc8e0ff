//! The entry point of the command decisions: one step of whatever command
//! the command line asked for.

use vstd::prelude::*;
use crate::cli::args::{CardCmd, Cmd};
use crate::cli::card::{card_list_cmd_spec, cmd_card_list};
use crate::cli::catalog::{catalog_spec, cmd_catalog};
use crate::cli::deck::{cmd_deck, deck_spec};
use crate::cli::import::{cmd_import, cmd_init, import_cmd_spec, init_spec};
use crate::cli::rate::{cmd_rate, rate_cmd_spec};
use crate::cli::review::{cmd_current, cmd_stats, cmd_status, current_spec, stats_cmd_spec, status_cmd_spec};
use crate::cli::step::{Reply, Step};

verus! {

/// The page offset of `card list` fits an `i64` when the page and its size
/// are valid.
pub open spec fn card_page_fits(cmd: Cmd) -> bool {
    match cmd {
        Cmd::Card { sub: CardCmd::List(a) } =>
            a.page >= 1 && a.page_size >= 1 ==> (a.page - 1) * a.page_size <= i64::MAX,
        _ => true,
    }
}

/// What the command does next.
pub open spec fn run_spec(cmd: Cmd, rs: Seq<Reply>, r: Step) -> bool {
    match cmd {
        Cmd::Init => init_spec(rs, r),
        Cmd::Deck { sub } => deck_spec(sub, rs, r),
        Cmd::Card { sub } => match sub {
            CardCmd::List(a) => card_list_cmd_spec(a, rs, r),
        },
        Cmd::Import { sub } => import_cmd_spec(sub, rs, r),
        Cmd::Current(a) => current_spec(a, rs, r),
        Cmd::Status(a) => status_cmd_spec(a, rs, r),
        Cmd::Stats(a) => stats_cmd_spec(a, rs, r),
        Cmd::Rate(a) => rate_cmd_spec(a, rs, r),
        Cmd::Catalog { sub } => catalog_spec(sub, rs, r),
    }
}

/// Runs the command one step, given every reply so far.
pub fn run(cmd: &Cmd, replies: &Vec<Reply>) -> (r: Step)
    requires
        card_page_fits(*cmd),
    ensures
        run_spec(*cmd, replies@, r),
{
    match cmd {
        Cmd::Init => cmd_init(replies),
        Cmd::Deck { sub } => cmd_deck(sub, replies),
        Cmd::Card { sub } => match sub {
            CardCmd::List(a) => cmd_card_list(a, replies),
        },
        Cmd::Import { sub } => cmd_import(sub, replies),
        Cmd::Current(a) => cmd_current(a, replies),
        Cmd::Status(a) => cmd_status(a, replies),
        Cmd::Stats(a) => cmd_stats(a, replies),
        Cmd::Rate(a) => cmd_rate(a, replies),
        Cmd::Catalog { sub } => cmd_catalog(sub, replies),
    }
}

} // verus!
