//! What Enter on a focused element of a stacked document opens: the player
//! behind a row of a boxscore or of a team's roster.

use vstd::prelude::*;

use std::collections::HashMap;

use crate::nav::StackedDocument;
use crate::player_detail::{PlayerInfo, get_nhl_regular_seasons, shown_seasons};
use crate::team_detail::{
    ClubGoalieRow, ClubSkaterRow, ClubStatsRows, goalies_by_games, skaters_by_points,
    sort_goalies_by_games, sort_skaters_by_points,
};

verus! {

/// The players of one team in a boxscore, by section, in the order the
/// boxscore lists them.
#[derive(Debug)]
pub struct TeamPlayers {
    pub forwards: Vec<i64>,
    pub defense: Vec<i64>,
    pub goalies: Vec<i64>,
}

/// The players of both teams of a game.
#[derive(Debug)]
pub struct BoxscorePlayers {
    pub away: TeamPlayers,
    pub home: TeamPlayers,
}

/// The players of a team, section after section.
pub open spec fn team_order(t: TeamPlayers) -> Seq<i64> {
    t.forwards@ + t.defense@ + t.goalies@
}

/// The players of a boxscore in focus order: the away team's forwards,
/// defense and goalies, then the home team's.
pub open spec fn boxscore_order(b: BoxscorePlayers) -> Seq<i64> {
    team_order(b.away) + team_order(b.home)
}

/// Whether the section sizes of a boxscore can be added up in `usize`.
pub open spec fn boxscore_fits(b: BoxscorePlayers) -> bool {
    boxscore_order(b).len() <= usize::MAX
}

/// Handler of a boxscore document.
#[derive(Debug)]
pub struct BoxscoreDocumentHandler {
    pub game_id: i64,
}

/// The players of the game's boxscore, when it has been loaded, in focus
/// order.
pub open spec fn game_order(boxscores: Map<i64, BoxscorePlayers>, game_id: i64) -> Option<Seq<i64>> {
    if boxscores.contains_key(game_id) {
        Some(boxscore_order(boxscores[game_id]))
    } else {
        None
    }
}

/// Whether the section sizes of every loaded boxscore can be added up in
/// `usize`.
pub open spec fn boxscores_fit(boxscores: Map<i64, BoxscorePlayers>) -> bool {
    forall|g: i64| #[trigger] boxscores.contains_key(g) ==> boxscore_fits(boxscores[g])
}

impl BoxscoreDocumentHandler {
    /// The player at a focus index of the game's boxscore: None when the
    /// boxscore has not been loaded or the index is past its last player.
    pub fn get_player_id_at_index(
        &self,
        index: usize,
        boxscores: &HashMap<i64, BoxscorePlayers>,
    ) -> (r: Option<i64>)
        requires
            boxscores_fit(boxscores@),
        ensures
            r == (match game_order(boxscores@, self.game_id) {
                Some(order) => if index < order.len() {
                    Some(order[index as int])
                } else {
                    None
                },
                None => None,
            }),
    {
        broadcast use vstd::std_specs::hash::group_hash_axioms;

        let boxscore = match boxscores.get(&self.game_id) {
            Some(b) => b,
            None => {
                return None;
            },
        };
        assert(boxscores@.contains_key(self.game_id));
        player_at(index, boxscore)
    }

    /// Enter on the focused row: the player's details, when the focus is on
    /// a player of the game's loaded boxscore.
    pub fn activate(&self, focus_index: Option<usize>, boxscores: &HashMap<i64, BoxscorePlayers>) -> (r:
        Option<StackedDocument>)
        requires
            boxscores_fit(boxscores@),
        ensures
            r == (match (focus_index, game_order(boxscores@, self.game_id)) {
                (Some(i), Some(order)) => if i < order.len() {
                    Some(StackedDocument::PlayerDetail { player_id: order[i as int] })
                } else {
                    None
                },
                _ => None,
            }),
    {
        match focus_index {
            Some(idx) => match self.get_player_id_at_index(idx, boxscores) {
                Some(player_id) => Some(StackedDocument::PlayerDetail { player_id }),
                None => None,
            },
            None => None,
        }
    }
}

/// The player at a focus index of a boxscore: the away team's forwards,
/// defense and goalies, then the home team's.
fn player_at(index: usize, boxscore: &BoxscorePlayers) -> (r: Option<i64>)
    requires
        boxscore_fits(*boxscore),
    ensures
        r == (if index < boxscore_order(*boxscore).len() {
            Some(boxscore_order(*boxscore)[index as int])
        } else {
            None
        }),
{
    let away = &boxscore.away;
    let home = &boxscore.home;
    let away_forwards_count = away.forwards.len();
    let away_defense_count = away.defense.len();
    let away_goalies_count = away.goalies.len();
    let away_total = away_forwards_count + away_defense_count + away_goalies_count;
    let home_forwards_count = home.forwards.len();
    let home_defense_count = home.defense.len();
    if index < away_forwards_count {
        Some(away.forwards[index])
    } else if index < away_forwards_count + away_defense_count {
        Some(away.defense[index - away_forwards_count])
    } else if index < away_total {
        Some(away.goalies[index - away_forwards_count - away_defense_count])
    } else if index < away_total + home_forwards_count {
        Some(home.forwards[index - away_total])
    } else if index < away_total + home_forwards_count + home_defense_count {
        Some(home.defense[index - away_total - home_forwards_count])
    } else {
        let goalie_idx = index - away_total - home_forwards_count - home_defense_count;
        if goalie_idx < home.goalies.len() {
            Some(home.goalies[goalie_idx])
        } else {
            None
        }
    }
}

/// Handler of a team detail document.
#[derive(Debug)]
pub struct TeamDetailDocumentHandler {
    pub abbrev: String,
}

/// The players of a roster in the order shown: the skaters by points, then
/// the goalies by games played.
pub open spec fn roster_order(r: ClubStatsRows) -> Seq<i64> {
    skaters_by_points(r.skaters@).map_values(|s: ClubSkaterRow| s.player_id) + goalies_by_games(
        r.goalies@,
    ).map_values(|g: ClubGoalieRow| g.player_id)
}

impl TeamDetailDocumentHandler {
    /// Enter on the focused row of a roster, ordered as shown: the skater or
    /// goalie at that row.
    pub fn activate(&self, focus_index: Option<usize>, roster: Option<&ClubStatsRows>) -> (r: Option<
        StackedDocument,
    >)
        ensures
            r == (match (focus_index, roster) {
                (Some(i), Some(ro)) => if i < roster_order(*ro).len() {
                    Some(StackedDocument::PlayerDetail { player_id: roster_order(*ro)[i as int] })
                } else {
                    None
                },
                _ => None,
            }),
    {
        let idx = match focus_index {
            Some(i) => i,
            None => {
                return None;
            },
        };
        let roster = match roster {
            Some(r) => r,
            None => {
                return None;
            },
        };
        let sorted_skaters = sort_skaters_by_points(&roster.skaters);
        let sorted_goalies = sort_goalies_by_games(&roster.goalies);
        let ghost ks = sorted_skaters@.map_values(|s: ClubSkaterRow| s.player_id);
        let ghost kg = sorted_goalies@.map_values(|g: ClubGoalieRow| g.player_id);
        let num_skaters = sorted_skaters.len();
        let player_id = if idx < num_skaters {
            Some(sorted_skaters[idx].player_id)
        } else {
            let goalie_idx = idx - num_skaters;
            if goalie_idx < sorted_goalies.len() {
                Some(sorted_goalies[goalie_idx].player_id)
            } else {
                None
            }
        };
        proof {
            if idx < num_skaters {
                assert((ks + kg)[idx as int] == ks[idx as int]);
            } else if idx - num_skaters < sorted_goalies@.len() {
                assert((ks + kg)[idx as int] == kg[idx - num_skaters]);
            }
        }
        match player_id {
            Some(id) => Some(StackedDocument::PlayerDetail { player_id: id }),
            None => None,
        }
    }
}

/// Handler of a player detail document.
#[derive(Debug)]
pub struct PlayerDetailDocumentHandler {
    pub player_id: i64,
}

/// The team a row of a player's seasons opens: the team of the season at
/// that row, ordered as shown, when its abbreviation is known.
pub open spec fn season_team(p: PlayerInfo, i: int) -> Option<Seq<char>> {
    let seasons = shown_seasons(p);
    if 0 <= i < seasons.len() {
        match seasons[i].team_abbrev {
            Some(a) => Some(a@),
            None => None,
        }
    } else {
        None
    }
}

impl PlayerDetailDocumentHandler {
    /// Enter on the focused row of a player's seasons: the team of that
    /// season.
    pub fn activate(&self, focus_index: Option<usize>, player: Option<&PlayerInfo>) -> (r: Option<
        StackedDocument,
    >)
        ensures
            match (focus_index, player) {
                (Some(i), Some(p)) => match season_team(*p, i as int) {
                    Some(t) => r matches Some(StackedDocument::TeamDetail { abbrev }) && abbrev@ == t,
                    None => r is None,
                },
                _ => r is None,
            },
    {
        let idx = match focus_index {
            Some(i) => i,
            None => {
                return None;
            },
        };
        let player = match player {
            Some(p) => p,
            None => {
                return None;
            },
        };
        let seasons = get_nhl_regular_seasons(player);
        if idx >= seasons.len() {
            return None;
        }
        match &seasons[idx].team_abbrev {
            Some(a) => Some(StackedDocument::TeamDetail { abbrev: a.clone() }),
            None => None,
        }
    }
}

/// The handler of a stacked document, by its kind.
#[derive(Debug)]
pub enum StackedDocumentHandler {
    Boxscore(BoxscoreDocumentHandler),
    TeamDetail(TeamDetailDocumentHandler),
    PlayerDetail(PlayerDetailDocumentHandler),
}

/// The handler of a stacked document: of its game, team or player.
pub fn get_stacked_document_handler(doc: &StackedDocument) -> (h: StackedDocumentHandler)
    ensures
        match *doc {
            StackedDocument::Boxscore { game_id } => h matches StackedDocumentHandler::Boxscore(b)
                && b.game_id == game_id,
            StackedDocument::TeamDetail { abbrev } => h matches StackedDocumentHandler::TeamDetail(t)
                && t.abbrev@ == abbrev@,
            StackedDocument::PlayerDetail { player_id } => h matches StackedDocumentHandler::PlayerDetail(
                p,
            ) && p.player_id == player_id,
        },
{
    match doc {
        StackedDocument::Boxscore { game_id } => StackedDocumentHandler::Boxscore(
            BoxscoreDocumentHandler { game_id: *game_id },
        ),
        StackedDocument::TeamDetail { abbrev } => StackedDocumentHandler::TeamDetail(
            TeamDetailDocumentHandler { abbrev: abbrev.clone() },
        ),
        StackedDocument::PlayerDetail { player_id } => StackedDocumentHandler::PlayerDetail(
            PlayerDetailDocumentHandler { player_id: *player_id },
        ),
    }
}

/// Each player of a boxscore is reached at exactly one focus index: the
/// index of a player of the home team is the away team's size plus its index
/// within the home team.
pub proof fn lemma_home_players_follow_away(b: BoxscorePlayers, j: int)
    requires
        0 <= j < team_order(b.home).len(),
    ensures
        boxscore_order(b)[team_order(b.away).len() + j] == team_order(b.home)[j],
{
}

} // verus!
