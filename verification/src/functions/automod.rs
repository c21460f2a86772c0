//! Auto-moderation rules.
#![allow(non_snake_case)]
pub mod helpers;
pub mod automodRuleCreate;
pub mod automodRuleEdit;
pub mod automodRule;
pub mod automodRuleDelete;
pub mod automodRules;
