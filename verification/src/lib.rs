//! A catalog of EPUB books.
//!
//! The library reads the metadata of a document, recognizes its ISBNs,
//! enriches its record with what OpenLibrary knows, normalizes its cover,
//! and steers the ingestion of an upload from the first byte to the
//! confirmation. It also renders the pages of the web interface.
//!
//! Everything here is stated over models of the data (texts as
//! `Seq<char>`, files as `Seq<u8>`) and proved against them. Reading
//! documents, talking to OpenLibrary, and writing to disk and database are
//! done by the program around the library, which hands it plain values.

pub mod book_identifier;
pub mod book_model;
pub mod book_repository;
pub mod config;
pub mod epub_cover_extractor;
pub mod epub_parser;
pub mod error;
pub mod file_storage;
pub mod gallery_renderer;
pub mod html_templates;
pub mod isbn;
pub mod openlibrary_client;
pub mod openlibrary_types;
pub mod reader_renderer;
pub mod route_handlers;
pub mod static_assets;
pub mod text;
pub mod upload_handler;
