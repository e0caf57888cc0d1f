pub mod bookmark;
pub mod clock;
pub mod control_server;
pub mod download;
pub mod history;
pub mod routes;
pub mod screenshot;
pub mod scripts;
pub mod seqs;
pub mod tab_manager;
pub mod text;
pub mod urlcodec;
pub mod window_state;
