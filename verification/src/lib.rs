//! Classification of media file names: television episode or movie, with a
//! display title and a season number or release year.

pub mod laws;
pub mod matcher;
pub mod media;
pub mod parser;
pub mod paths;
pub mod patterns;
pub mod search;
pub mod text;

pub use media::{Media, MediaType, MediaView, ParseError};
pub use parser::{
    assemble, clean_file_name, get_movie_year, get_season_number, get_title_end_pos, is_media,
    is_television, parse, parse_components,
};
pub use search::find_token;
