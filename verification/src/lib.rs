//! The model behind the cmux desktop shell: workspaces, panes and surfaces,
//! the socket protocol that drives them, and the text they exchange with
//! terminals and web pages.

pub mod acting;
pub mod app_state;
pub mod asking;
pub mod automation;
pub mod base64;
pub mod browsing;
pub mod dispatch;
pub mod echoes;
pub mod finding;
pub mod fitting;
pub mod ghostty;
pub mod going;
pub mod host;
pub mod i18n;
pub mod ids;
pub mod input;
pub mod json;
pub mod keyed;
pub mod keys;
pub mod laws;
pub mod layout;
pub mod listening;
pub mod lists;
pub mod locate;
pub mod marking;
pub mod markup;
pub mod method_order;
pub mod methods;
pub mod model;
pub mod moving;
pub mod naming;
pub mod notifications;
pub mod numbering;
pub mod opening;
pub mod others;
pub mod page;
pub mod page_json;
pub mod panes;
pub mod parsing;
pub mod paths;
pub mod patience;
pub mod percent;
pub mod placing;
pub mod printing;
pub mod query;
pub mod reading;
pub mod records_json;
pub mod relaying;
pub mod routing;
pub mod rpc;
pub mod runtime;
pub mod script;
pub mod seeking;
pub mod serving;
pub mod session;
pub mod settings;
pub mod shown;
pub mod soundness;
pub mod splitting;
pub mod summary;
pub mod surfaces;
pub mod surfacing;
pub mod system;
pub mod telling;
pub mod tending;
pub mod terminal;
pub mod terminal_text;
pub mod text;
pub mod touching;
pub mod waiting;
pub mod webview;
pub mod window;
pub mod workspaces;
