//! Verified core of a terminal Apple Music client: the domain model, the application
//! state reducer, library views and search, backend command scheduling, command line
//! parsing and configuration validation.
#![allow(unused_imports)]

pub mod action;
pub mod artwork;
pub mod artwork_cache;
pub mod auth;
pub mod backend;
pub mod browser;
pub mod capabilities;
pub mod cli;
pub mod collections;
pub mod commands;
pub mod config;
pub mod copies;
pub mod context_menu;
pub mod doctor;
pub mod developer_token;
pub mod domain;
pub mod events;
pub mod keyed;
pub mod library;
pub mod local_library;
pub mod menus;
pub mod mock;
pub mod music_app;
pub mod navigation;
pub mod playlist_loading;
pub mod playlists;
pub mod positions;
pub mod reducer;
pub mod scheduler;
pub mod script;
pub mod search;
pub mod selection;
pub mod session;
pub mod state;
pub mod text;
pub mod views;
