//! The remote schema's data types.
//!
//! Every field is optional, so that a query need only request what it uses;
//! each type has an accessor per field that returns the value, or a zero
//! value (empty text, zero, `false`, an empty list, a blank record) where the
//! field was not set or not requested.

pub mod address;
pub mod bracket_config;
pub mod character;
pub mod contact_info;
pub mod entrant;
pub mod event;
pub mod event_owner;
pub mod event_team;
pub mod game;
pub mod game_selection;
pub mod global_team;
pub mod image;
pub mod page_info;
pub mod participant;
pub mod phase;
pub mod phase_group;
pub mod player;
pub mod player_rank;
pub mod profile_authorization;
pub mod progression;
pub mod query;
pub mod race_bracket_config;
pub mod race_match_config;
pub mod round;
pub mod score;
pub mod seed;
pub mod set;
pub mod set_slot;
pub mod shop;
pub mod shop_level;
pub mod shop_order_message;
pub mod stage;
pub mod standing;
pub mod standing_stats;
pub mod stations;
pub mod stream;
pub mod stream_queue;
pub mod streams;
pub mod team;
pub mod team_member;
pub mod team_roster_size;
pub mod tournament;
pub mod tournament_links;
pub mod user;
pub mod videogame;
pub mod wave;

pub use address::GGAddress;
pub use bracket_config::GGBracketConfig;
pub use character::GGCharacter;
pub use contact_info::GGContactInfo;
pub use entrant::{GGEntrantConnection, GGEntrant};
pub use event::{GGEvents, GGEvent};
pub use event_owner::{GGEventOwnerConnection, GGEventOwner};
pub use event_team::{GGEventTeamConnection, GGEventTeam};
pub use game::GGGame;
pub use game_selection::GGGameSelection;
pub use global_team::GGGlobalTeam;
pub use image::GGImage;
pub use page_info::GGPageInfo;
pub use participant::{GGParticipants, GGParticipant};
pub use phase::GGPhase;
pub use phase_group::{GGPhaseGroupConnection, GGPhaseGroup};
pub use player::GGPlayer;
pub use player_rank::GGPlayerRank;
pub use profile_authorization::GGProfileAuthorization;
pub use progression::GGProgression;
pub use query::GGData;
pub use race_bracket_config::GGRaceBracketConfig;
pub use race_match_config::GGRaceMatchConfig;
pub use round::GGRound;
pub use score::GGScore;
pub use seed::{GGSeedConnection, GGSeed};
pub use set::{GGSetConnection, GGSet};
pub use set_slot::GGSetSlot;
pub use shop::GGShop;
pub use shop_level::{GGShopLevelConnection, GGShopLevel};
pub use shop_order_message::{GGShopOrderMessageConnection, GGShopOrderMessage};
pub use stage::GGStage;
pub use standing::{GGStandingConnection, GGStanding, GGStandingContainer};
pub use standing_stats::GGStandingStats;
pub use stations::{GGStationsConnection, GGStations};
pub use stream::GGStream;
pub use stream_queue::GGStreamQueue;
pub use streams::GGStreams;
pub use team::{GGTeamConnection, GGTeam};
pub use team_member::GGTeamMember;
pub use team_roster_size::GGTeamRosterSize;
pub use tournament::{GGTournamentConnection, GGTournament};
pub use tournament_links::GGTournamentLinks;
pub use user::GGUser;
pub use videogame::{GGVideogameConnection, GGVideogame};
pub use wave::GGWave;
