//! Command dispatch and reaction-driven approval logic of a chat bot.

pub mod role;
pub mod text;
pub mod pattern;
pub mod parse;
pub mod permissions;
pub mod commands;
pub mod process;
pub mod validation;
pub mod deployment;
pub mod threadcontrol;
pub mod constants;
pub mod credentials;
pub mod gcp_alert_struct;
pub mod calendar;
pub mod features;
pub mod database;
pub mod api;
pub mod gitlab_preview;
pub mod eventhandler;
pub mod replies;
pub mod annoy;
pub mod events;
pub mod project_manager;
pub mod invite_action;
pub mod ordering;
pub mod archivage;
pub mod mail;
pub mod minecraft;
pub mod emoji;
pub mod slash_command;
pub mod funny;
pub mod gemini;
pub mod renaming;
pub mod anyone;
pub mod handlers;
pub mod monitor;
pub mod githooks;
pub mod docker;
pub mod frontline;
pub mod airtable;
pub mod slackimport;
pub mod event;
pub mod connection;
