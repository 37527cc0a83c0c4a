//! Texts that describe the entities to a reader.

use crate::structs::enums::TargetType;
use vstd::prelude::*;

verus! {

/// What a kind of target is called in general terms, as the window of
/// powers shows it: nothing for the kinds that it does not show.
pub open spec fn target_description(target_type: TargetType) -> Option<Seq<char>> {
    match target_type {
        TargetType::kTargetType_Caster => Some("Self"@),
        TargetType::kTargetType_Location | TargetType::kTargetType_Teleport => Some("Location"@),
        TargetType::kTargetType_Player
        | TargetType::kTargetType_PlayerHero
        | TargetType::kTargetType_PlayerVillain
        | TargetType::kTargetType_DeadPlayer
        | TargetType::kTargetType_DeadPlayerFriend
        | TargetType::kTargetType_Teammate
        | TargetType::kTargetType_DeadTeammate
        | TargetType::kTargetType_DeadOrAliveTeammate
        | TargetType::kTargetType_NPC
        | TargetType::kTargetType_DeadOrAliveFriend
        | TargetType::kTargetType_DeadFriend
        | TargetType::kTargetType_Friend
        | TargetType::kTargetType_Leaguemate
        | TargetType::kTargetType_DeadOrAliveLeaguemate
        | TargetType::kTargetType_DeadLeaguemate => Some("Friendlies"@),
        TargetType::kTargetType_Villain
        | TargetType::kTargetType_DeadPlayerFoe
        | TargetType::kTargetType_DeadVillain
        | TargetType::kTargetType_DeadOrAliveFoe
        | TargetType::kTargetType_DeadFoe
        | TargetType::kTargetType_Foe => Some("Enemies"@),
        TargetType::kTargetType_MyPet
        | TargetType::kTargetType_DeadOrAliveMyPet
        | TargetType::kTargetType_DeadMyPet
        | TargetType::kTargetType_MyCreation
        | TargetType::kTargetType_DeadOrAliveMyCreation
        | TargetType::kTargetType_DeadMyCreation => Some("Pet"@),
        TargetType::kTargetType_Any
        | TargetType::kTargetType_DeadAny
        | TargetType::kTargetType_DeadOrAliveAny => Some("Any"@),
        _ => None,
    }
}

/// Describes a kind of target in general terms, if possible. This attempts
/// to match what is normally seen in the window of powers rather than
/// using the full description of the kind of target.
pub fn describe_target_type(target_type: &TargetType) -> (text: Option<&'static str>)
    ensures
        text.deep_view() == target_description(*target_type),
{
    match target_type {
        TargetType::kTargetType_Caster => Some("Self"),
        TargetType::kTargetType_Location | TargetType::kTargetType_Teleport => Some("Location"),
        TargetType::kTargetType_Player
        | TargetType::kTargetType_PlayerHero
        | TargetType::kTargetType_PlayerVillain
        | TargetType::kTargetType_DeadPlayer
        | TargetType::kTargetType_DeadPlayerFriend
        | TargetType::kTargetType_Teammate
        | TargetType::kTargetType_DeadTeammate
        | TargetType::kTargetType_DeadOrAliveTeammate
        | TargetType::kTargetType_NPC
        | TargetType::kTargetType_DeadOrAliveFriend
        | TargetType::kTargetType_DeadFriend
        | TargetType::kTargetType_Friend
        | TargetType::kTargetType_Leaguemate
        | TargetType::kTargetType_DeadOrAliveLeaguemate
        | TargetType::kTargetType_DeadLeaguemate => Some("Friendlies"),
        TargetType::kTargetType_Villain
        | TargetType::kTargetType_DeadPlayerFoe
        | TargetType::kTargetType_DeadVillain
        | TargetType::kTargetType_DeadOrAliveFoe
        | TargetType::kTargetType_DeadFoe
        | TargetType::kTargetType_Foe => Some("Enemies"),
        TargetType::kTargetType_MyPet
        | TargetType::kTargetType_DeadOrAliveMyPet
        | TargetType::kTargetType_DeadMyPet
        | TargetType::kTargetType_MyCreation
        | TargetType::kTargetType_DeadOrAliveMyCreation
        | TargetType::kTargetType_DeadMyCreation => Some("Pet"),
        TargetType::kTargetType_Any
        | TargetType::kTargetType_DeadAny
        | TargetType::kTargetType_DeadOrAliveAny => Some("Any"),
        _ => None,
    }
}

} // verus!
