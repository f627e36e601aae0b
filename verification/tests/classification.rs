use title_parser::text::{parse_decimal, slice};
use title_parser::{
    assemble, clean_file_name, find_token, get_movie_year, get_season_number, get_title_end_pos,
    is_media, is_television, parse, parse_components, MediaType, ParseError,
};
use title_parser::parser::read_season;
use title_parser::search::{any_match, earlier, earliest_token};

#[test]
fn media_extensions_are_recognised_in_any_case() {
    assert!(is_media("x.mkv"));
    assert!(is_media("x.mp4"));
    assert!(is_media("X.MKV"));
    assert!(is_media("X.Mp4"));
    assert!(!is_media("x.mp4.hi"));
    assert!(!is_media("file.mp4.txt"));
    assert!(!is_media("x.png"));
    assert!(!is_media("xmkv"));
    assert!(!is_media(""));
}

#[test]
fn season_number_needs_a_season_token() {
    assert_eq!(get_season_number("myshow01"), None);
    assert_eq!(get_season_number("myshowS01"), Some(1));
    assert_eq!(get_season_number("myshowS2"), Some(2));
    assert_eq!(get_season_number("myshows2"), Some(2));
    assert_eq!(get_season_number("Show.E05"), None);
    assert_eq!(get_season_number(""), None);
}

#[test]
fn season_number_reads_up_to_three_digits_of_the_first_token() {
    assert_eq!(get_season_number("Show.S123E04"), Some(123));
    assert_eq!(get_season_number("Show.S1234"), Some(123));
    assert_eq!(get_season_number("Show.S000"), Some(0));
    assert_eq!(get_season_number("Show.S03.S07"), Some(3));
    assert_eq!(get_season_number("Sx.S9"), Some(9));
}

#[test]
fn season_token_that_is_no_ascii_number_gives_no_season() {
    // The long s folds to `s`, and `\d` takes any decimal digit.
    assert!(is_television("show\u{17f}1"));
    assert_eq!(get_season_number("show\u{17f}1"), None);
    assert!(is_television("showS\u{661}\u{662}"));
    assert_eq!(get_season_number("showS\u{661}\u{662}"), None);
}

#[test]
fn movie_year_is_the_first_year_as_written() {
    assert_eq!(get_movie_year("Movie.2019.x265"), Some("2019"));
    assert_eq!(get_movie_year("Movie.NoYear.x265"), None);
    assert_eq!(get_movie_year("Movie.1999.2004"), Some("1999"));
    assert_eq!(get_movie_year("Movie.1899.2101"), None);
    assert_eq!(get_movie_year("Movie.120199"), Some("2019"));
    assert_eq!(get_movie_year("Am\u{e9}lie.2001"), Some("2001"));
}

#[test]
fn television_markers() {
    assert!(is_television("Show.S02E01.mkv"));
    assert!(is_television("Show.e7.mkv"));
    assert!(is_television("Show.Complete.mkv"));
    assert!(is_television("Show.SERIES.mkv"));
    assert!(is_television("Show.Season.Two.mkv"));
    assert!(!is_television("Nice.Movie.2019.1080p.BluRay.x265.mp4"));
    assert!(!is_television(""));
}

#[test]
fn find_token_gives_the_byte_offset_of_the_leftmost_match() {
    assert_eq!(find_token("Nice.Movie.2019", "(19|20)\\d{2}"), Some(11));
    assert_eq!(find_token("Am\u{e9}lie.2001", "(19|20)\\d{2}"), Some(8));
    assert_eq!(find_token("Nice.Movie", "(19|20)\\d{2}"), None);
    assert_eq!(find_token("2019", "(19|20)\\d{2}"), Some(0));
}

#[test]
fn find_token_with_a_pattern_that_does_not_compile_finds_nothing() {
    assert_eq!(find_token("Nice(Movie", "("), None);
}

#[test]
fn title_ends_at_the_earliest_marker_of_any_kind() {
    assert_eq!(get_title_end_pos("Show.S01.2019"), Some(5));
    assert_eq!(get_title_end_pos("Show.2019.S01"), Some(5));
    assert_eq!(get_title_end_pos("Show.Complete.Series.2004"), Some(5));
    assert_eq!(get_title_end_pos("Show.Series.Complete"), Some(5));
    assert_eq!(get_title_end_pos("A.Long.Show.Season.3"), Some(12));
    assert_eq!(get_title_end_pos("2019"), Some(0));
    assert_eq!(get_title_end_pos("Plain.Title"), None);
    assert_eq!(get_title_end_pos(""), None);
}

#[test]
fn title_end_is_found_far_into_a_long_name() {
    let mut name = "a".repeat(1200);
    name.push_str(".2019");
    assert_eq!(get_title_end_pos(&name), Some(1201));
}

#[test]
fn earlier_takes_the_smaller_offset_that_is_present() {
    assert_eq!(earlier(Some(3), Some(2)), Some(2));
    assert_eq!(earlier(Some(2), Some(3)), Some(2));
    assert_eq!(earlier(Some(4), None), Some(4));
    assert_eq!(earlier(None, Some(5)), Some(5));
    assert_eq!(earlier(None, None), None);
}

#[test]
fn any_match_looks_at_every_pattern() {
    assert!(any_match(&["a", "b"], "xbx"));
    assert!(any_match(&["a", "b"], "xax"));
    assert!(!any_match(&["a", "b"], "xcx"));
    assert!(!any_match(&[], "xcx"));
}

#[test]
fn earliest_token_is_the_minimum_over_the_table() {
    assert_eq!(earliest_token(&["c", "b", "a"], "xxaxbxc"), Some(2));
    assert_eq!(earliest_token(&["a", "b", "c"], "xxaxbxc"), Some(2));
    assert_eq!(earliest_token(&["c", "z"], "xxaxbxc"), Some(6));
    assert_eq!(earliest_token(&["y", "z"], "xxaxbxc"), None);
    assert_eq!(earliest_token(&[], "xxaxbxc"), None);
    assert_eq!(earliest_token(&["\u{e9}"], "\u{e8}\u{e9}"), Some(2));
}

#[test]
fn parse_decimal_reads_ascii_digits_only() {
    assert_eq!(parse_decimal(b"02"), Some(2));
    assert_eq!(parse_decimal(b"123"), Some(123));
    assert_eq!(parse_decimal(b"0"), Some(0));
    assert_eq!(parse_decimal(b"4294967295"), Some(4294967295));
    assert_eq!(parse_decimal(b"4294967296"), None);
    assert_eq!(parse_decimal(b"99999999999999999999999"), None);
    assert_eq!(parse_decimal(b""), None);
    assert_eq!(parse_decimal(b"12a"), None);
    assert_eq!(parse_decimal(b"+12"), None);
    assert_eq!(parse_decimal(b" 12"), None);
}

#[test]
fn cleaning_replaces_punctuation_and_trims() {
    assert_eq!(clean_file_name("The.Super.Long.Television."), "The Super Long Television");
    assert_eq!(clean_file_name("Nice.Movie.(Extended)."), "Nice Movie  Extended");
    assert_eq!(clean_file_name("..Hello..World.."), "Hello  World");
    assert_eq!(clean_file_name("  padded\t\n"), "padded");
    assert_eq!(clean_file_name("..."), "");
    assert_eq!(clean_file_name(""), "");
    assert_eq!(clean_file_name("a-b_c"), "a-b_c");
}

#[test]
fn cleaning_a_clean_title_only_trims() {
    assert_eq!(clean_file_name("Already Clean"), "Already Clean");
    assert_eq!(clean_file_name("  Already Clean "), "Already Clean");
    let once = clean_file_name(".Some.Title (2001).");
    assert_eq!(once, "Some Title  2001");
    assert_eq!(clean_file_name(&once), once);
}

#[test]
fn parse_television_episode() {
    let path = "The.Super.Long.Television.S02E01.1080p.HEVC.x265/The.Super.Long.Television.S02E01.1080p.HEVC.x265.mkv";
    let media = parse(path).unwrap();
    assert_eq!(media.title(), "The Super Long Television");
    assert_eq!(media.media_type(), MediaType::Television(2));
    assert_eq!(media.path(), path);
}

#[test]
fn parse_movie() {
    let path = "Nice.Movie.2019.1080p.BluRay.x265/Nice.Movie.2019.1080p.BluRay.x265.mp4";
    let media = parse(path).unwrap();
    assert_eq!(media.title(), "Nice Movie (2019)");
    assert_eq!(media.media_type(), MediaType::Movie);
    assert_eq!(media.path(), path);
}

#[test]
fn parse_rejects_what_is_no_media_file() {
    assert_eq!(parse("randomfile.txt").unwrap_err(), ParseError::NotMedia);
    assert_eq!(parse("Show.S01/notes.txt").unwrap_err(), ParseError::NotMedia);
}

#[test]
fn parse_without_file_name() {
    assert_eq!(parse("").unwrap_err(), ParseError::NoFileName);
    assert_eq!(parse("/").unwrap_err(), ParseError::NoFileName);
    assert_eq!(parse("Show.S01/..").unwrap_err(), ParseError::NoFileName);
}

#[test]
fn parse_without_directory_name() {
    assert_eq!(parse("Nice.Movie.2019.mp4").unwrap_err(), ParseError::NoDirectoryName);
    assert_eq!(parse("/Nice.Movie.2019.mp4").unwrap_err(), ParseError::NoDirectoryName);
    assert_eq!(parse("../Nice.Movie.2019.mp4").unwrap_err(), ParseError::NoDirectoryName);
}

#[test]
fn parse_without_title_boundary() {
    assert_eq!(parse("dir/film.mkv").unwrap_err(), ParseError::NoTitleBoundary);
}

#[test]
fn parse_television_without_season_token_fails() {
    assert_eq!(
        parse("Show.Complete.Series/Show.Complete.Series.mkv").unwrap_err(),
        ParseError::SeasonNumberMissing
    );
    assert_eq!(parse("Show.E01/Show.E01.mkv").unwrap_err(), ParseError::SeasonNumberMissing);
    assert_eq!(
        parse("Show.S01/Show.Season.One.mkv").unwrap_err(),
        ParseError::SeasonNumberMissing
    );
}

#[test]
fn parse_movie_without_year_fails() {
    assert_eq!(parse("Movie.2019/movie.mkv").unwrap_err(), ParseError::MovieYearMissing);
}

#[test]
fn parse_prefers_the_directory_name_for_the_title() {
    let media = parse("Dir.Title.2019.x265/File.Title.2020.mkv").unwrap();
    assert_eq!(media.title(), "Dir Title (2020)");
    assert_eq!(media.media_type(), MediaType::Movie);
}

#[test]
fn parse_falls_back_to_the_file_name_for_the_title() {
    let media = parse("downloads/File.Title.S03E02.mkv").unwrap();
    assert_eq!(media.title(), "File Title");
    assert_eq!(media.media_type(), MediaType::Television(3));
}

#[test]
fn parse_keeps_a_title_that_is_not_ascii() {
    let media = parse("Am\u{e9}lie.2001.1080p/Am\u{e9}lie.2001.1080p.mkv").unwrap();
    assert_eq!(media.title(), "Am\u{e9}lie (2001)");
    assert_eq!(media.media_type(), MediaType::Movie);
}

#[test]
fn parse_with_a_marker_at_the_start_gives_an_empty_title() {
    let media = parse("S01E01/S01E01.mkv").unwrap();
    assert_eq!(media.title(), "");
    assert_eq!(media.media_type(), MediaType::Television(1));
    let media = parse("2019/2019.mkv").unwrap();
    assert_eq!(media.title(), " (2019)");
    assert_eq!(media.media_type(), MediaType::Movie);
}

#[test]
fn parse_components_takes_the_names_as_given() {
    let media = parse_components("anywhere", Some("Show.S04E01.mkv"), Some("Show.S04")).unwrap();
    assert_eq!(media.title(), "Show");
    assert_eq!(media.media_type(), MediaType::Television(4));
    assert_eq!(media.path(), "anywhere");
    assert_eq!(
        parse_components("p", None, Some("Show.S04")).unwrap_err(),
        ParseError::NoFileName
    );
    assert_eq!(
        parse_components("p", Some("Show.S04E01.txt"), None).unwrap_err(),
        ParseError::NotMedia
    );
    assert_eq!(
        parse_components("p", Some("Show.S04E01.mkv"), None).unwrap_err(),
        ParseError::NoDirectoryName
    );
    assert_eq!(
        parse_components("p", Some("film.mkv"), Some("dir")).unwrap_err(),
        ParseError::NoTitleBoundary
    );
}

#[test]
fn assemble_makes_an_episode_from_a_season() {
    let media = assemble("p", String::from("Show"), true, Some(7), Some("2019")).unwrap();
    assert_eq!(media.title(), "Show");
    assert_eq!(media.media_type(), MediaType::Television(7));
    assert_eq!(media.path(), "p");
}

#[test]
fn assemble_makes_a_movie_with_the_year_in_its_title() {
    let media = assemble("p", String::from("Nice Movie"), false, Some(7), Some("2019")).unwrap();
    assert_eq!(media.title(), "Nice Movie (2019)");
    assert_eq!(media.media_type(), MediaType::Movie);
    assert_eq!(media.path(), "p");
}

#[test]
fn assemble_never_makes_up_what_is_missing() {
    assert_eq!(
        assemble("p", String::from("Show"), true, None, Some("2019")).unwrap_err(),
        ParseError::SeasonNumberMissing
    );
    assert_eq!(
        assemble("p", String::from("Movie"), false, Some(1), None).unwrap_err(),
        ParseError::MovieYearMissing
    );
}

#[test]
fn slice_cuts_between_character_boundaries_only() {
    assert_eq!(slice("Nice.Movie.2019", 0, 11), Some("Nice.Movie."));
    assert_eq!(slice("Nice.Movie.2019", 11, 15), Some("2019"));
    assert_eq!(slice("Am\u{e9}lie.2001", 0, 7), Some("Am\u{e9}lie"));
    assert_eq!(slice("Am\u{e9}lie.2001", 0, 3), None);
    assert_eq!(slice("Am\u{e9}lie.2001", 3, 7), None);
    assert_eq!(slice("abc", 1, 1), Some(""));
    assert_eq!(slice("abc", 0, 3), Some("abc"));
    assert_eq!(slice("abc", 2, 1), None);
    assert_eq!(slice("abc", 0, 4), None);
    assert_eq!(slice("", 0, 0), Some(""));
}

#[test]
fn read_season_reads_the_digits_after_the_first_byte_of_a_token() {
    assert_eq!(read_season("myshowS01", 6, 9), Some(1));
    assert_eq!(read_season("myshows2", 6, 8), Some(2));
    assert_eq!(read_season("Show.S123E04", 5, 9), Some(123));
    assert_eq!(read_season("Show.S123E04", 5, 10), None);
    assert_eq!(read_season("Show.S1", 5, 6), None);
    assert_eq!(read_season("Show.S1", 5, 5), None);
    assert_eq!(read_season("Show.S1", 5, 8), None);
    assert_eq!(read_season("Show.S1", 7, 5), None);
    assert_eq!(read_season("show\u{17f}1", 4, 7), None);
}
