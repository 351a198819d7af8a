//! Who may submit which move. Nothing here changes a record.

use crate::error::BattleShipErrorCode;
use crate::keys::Pubkey;
use crate::record::{GameData, GameState, GameView};
use vstd::prelude::*;

verus! {

/// Who may place ships: only one of the two players, and only during
/// placement. The result tells whether the caller is player 1. The caller is
/// looked at before the phase is: somebody who is neither player is refused
/// as unauthorized whatever the phase.
pub open spec fn placement_role(game: GameView, payer: Seq<u8>) -> Result<
    bool,
    BattleShipErrorCode,
> {
    if payer != game.player_1 && payer != game.player_2 {
        Err(BattleShipErrorCode::UnauthorizedPlayer)
    } else if game.game_state != GameState::PlacingShips {
        Err(BattleShipErrorCode::InvalidGameState)
    } else {
        Ok(payer == game.player_1)
    }
}

/// Who may guess: player 1 on its turn, player 2 on its turn, and nobody
/// else at any time. The result tells whether the caller is player 1.
pub open spec fn turn_role(game: GameView, payer: Seq<u8>) -> Result<bool, BattleShipErrorCode> {
    if game.game_state == GameState::Player1Turn && payer == game.player_1 {
        Ok(true)
    } else if game.game_state == GameState::Player2Turn && payer == game.player_2 {
        Ok(false)
    } else {
        Err(BattleShipErrorCode::InvalidTurn)
    }
}

/// Decides whether `payer` may place ships now, and as which player.
pub fn authorize_placement(game: &GameData, payer: &Pubkey) -> (res: Result<
    bool,
    BattleShipErrorCode,
>)
    ensures
        res == placement_role(game@, payer@),
{
    let is_player_1 = *payer == game.player_1;
    if !is_player_1 && !(*payer == game.player_2) {
        return Err(BattleShipErrorCode::UnauthorizedPlayer);
    }
    match game.game_state {
        GameState::PlacingShips => Ok(is_player_1),
        _ => Err(BattleShipErrorCode::InvalidGameState),
    }
}

/// Decides whether `payer` may guess now, and as which player.
pub fn authorize_turn(game: &GameData, payer: &Pubkey) -> (res: Result<bool, BattleShipErrorCode>)
    ensures
        res == turn_role(game@, payer@),
{
    match game.game_state {
        GameState::Player1Turn => {
            if *payer == game.player_1 {
                return Ok(true);
            }
        },
        GameState::Player2Turn => {
            if *payer == game.player_2 {
                return Ok(false);
            }
        },
        _ => {},
    }
    Err(BattleShipErrorCode::InvalidTurn)
}

/// Somebody who is neither player is refused whatever the phase of the
/// match: a placement of theirs as unauthorized, a guess of theirs as an
/// invalid turn.
pub proof fn lemma_outsider_is_refused(game: GameView, payer: Seq<u8>)
    requires
        payer != game.player_1,
        payer != game.player_2,
    ensures
        placement_role(game, payer) == Err::<bool, BattleShipErrorCode>(
            BattleShipErrorCode::UnauthorizedPlayer,
        ),
        turn_role(game, payer) == Err::<bool, BattleShipErrorCode>(
            BattleShipErrorCode::InvalidTurn,
        ),
{
}

/// A player is admitted to place exactly during placement, and refused for
/// the phase of the match at any other time.
pub proof fn lemma_players_place_during_placement_only(game: GameView, payer: Seq<u8>)
    requires
        payer == game.player_1 || payer == game.player_2,
    ensures
        game.game_state == GameState::PlacingShips ==> placement_role(game, payer) == Ok::<
            bool,
            BattleShipErrorCode,
        >(payer == game.player_1),
        game.game_state != GameState::PlacingShips ==> placement_role(game, payer) == Err::<
            bool,
            BattleShipErrorCode,
        >(BattleShipErrorCode::InvalidGameState),
{
}

/// A guess is admitted only from the player whose turn it is.
pub proof fn lemma_only_the_turn_holder_may_guess(game: GameView, payer: Seq<u8>)
    ensures
        turn_role(game, payer) is Ok <==> (game.game_state == GameState::Player1Turn && payer
            == game.player_1) || (game.game_state == GameState::Player2Turn && payer
            == game.player_2),
        turn_role(game, payer) matches Ok(is_player_1) ==> is_player_1 == (game.game_state
            == GameState::Player1Turn),
{
}

} // verus!
