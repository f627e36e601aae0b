use title_parser::{get_season_number, is_media, parse, MediaType};

#[test]
fn test_is_media() {
    let path = String::from("path/to/variable.mkv");
    let result = is_media(&path);
    assert!(result);
    let path = String::from("path/to/variable.mp4");
    let result = is_media(&path);
    assert!(result);
    let path = String::from("path/to/vari.mp4.hi");
    let result = is_media(&path);
    assert!(!result);
    let path = String::from("path/to/vari.png");
    let result = is_media(&path);
    assert!(!result);
}

#[test]
fn test_get_season() {
    let file = String::from("myshows01");
    let result = get_season_number(&file).unwrap();
    assert_eq!(result, 1);
    let file = String::from("myshows01");
    let result = get_season_number(&file).unwrap();
    assert_eq!(result, 1);

    let file = String::from("myshows2");
    let result = get_season_number(&file).unwrap();
    assert_eq!(result, 2);
    let file = String::from("myshowS2");
    let result = get_season_number(&file).unwrap();
    assert_eq!(result, 2);
}

#[test]
fn test_parse() {
    let file = String::from("The.Super.Long.Television.S02E01.1080p.HEVC.x265/The.Super.Long.Television.S02E01.1080p.HEVC.x265.mkv");
    let result = parse(&file);
    match result {
        Ok(result) => {
            assert_eq!(result.title(), "The Super Long Television");
            assert_eq!(result.media_type(), MediaType::Television(2));
        }
        Err(_e) => {
            panic!()
        }
    }

    let file = String::from("Nice.Movie.2019.1080p.BluRay.x265/Nice.Movie.2019.1080p.BluRay.x265.mp4");
    let result = parse(&file);
    match result {
        Ok(result) => {
            assert_eq!(result.title(), "Nice Movie (2019)");
            assert_eq!(result.media_type(), MediaType::Movie);
        }
        Err(_e) => {
            panic!()
        }
    }
}
