use std::str::FromStr;

use super_analyzer::error::JsonFailure;
use super_analyzer::{get_code, vulnerability_heading, vulnerability_tone};
use super_analyzer::{Criticity, Error, JSONError, Tone};

#[test]
fn it_get_code() {
    let code = "Lorem ipsum dolor sit amet, consectetur adipiscing elit.\nCurabitur tortor. \
                Pellentesque nibh. Aenean quam.\nSed lacinia, urna non tincidunt mattis, \
                tortor neque\nPraesent blandit dolor. Sed non quam. In vel mi\nSed aliquet \
                risus a tortor. Integer id quam. Morbi mi.\nNullam mauris orci, aliquet et, \
                iaculis et, viverra vitae, ligula.\nPraesent mauris. Fusce nec tellus sed \
                ugue semper porta. Mauris massa.\nProin ut ligula vel nunc egestas porttitor. \
                Morbi lectus risus,\nVestibulum sapien. Proin quam. Etiam ultrices. \
                Suspendisse in\nVestibulum tincidunt malesuada tellus. Ut ultrices ultrices \
                enim.\nAenean laoreet. Vestibulum nisi lectus, commodo ac, facilisis\nInteger \
                nec odio. Praesent libero. Sed cursus ante dapibus diam.\nPellentesque nibh. \
                Aenean quam. In scelerisque sem at dolor.\nSed lacinia, urna non tincidunt \
                mattis, tortor neque adipiscing\nVestibulum ante ipsum primis in faucibus \
                orci luctus et ultrices";

    assert_eq!(get_code(code, 1, 1),
               "Lorem ipsum dolor sit amet, consectetur adipiscing elit.\n\
                Curabitur tortor. Pellentesque nibh. Aenean quam.\n\
                Sed lacinia, urna non tincidunt mattis, tortor neque\n\
                Praesent blandit dolor. Sed non quam. In vel mi\n\
                Sed aliquet risus a tortor. Integer id quam. Morbi mi.\n\
                Nullam mauris orci, aliquet et, iaculis et, viverra vitae, ligula.\n");

    assert_eq!(get_code(code, 13, 13),
               "Vestibulum tincidunt malesuada tellus. Ut ultrices ultrices enim.\n\
                Aenean laoreet. Vestibulum nisi lectus, commodo ac, facilisis\n\
                Integer nec odio. Praesent libero. Sed cursus ante dapibus diam.\n\
                Pellentesque nibh. Aenean quam. In scelerisque sem at dolor.\n\
                Sed lacinia, urna non tincidunt mattis, tortor neque adipiscing\n\
                Vestibulum ante ipsum primis in faucibus orci luctus et ultrices\n");

    assert_eq!(get_code(code, 7, 7),
               "Praesent blandit dolor. Sed non quam. In vel mi\n\
                Sed aliquet risus a tortor. Integer id quam. Morbi mi.\n\
                Nullam mauris orci, aliquet et, iaculis et, viverra vitae, ligula.\n\
                Praesent mauris. Fusce nec tellus sed ugue semper porta. Mauris massa.\n\
                Proin ut ligula vel nunc egestas porttitor. Morbi lectus risus,\n\
                Vestibulum sapien. Proin quam. Etiam ultrices. Suspendisse in\n\
                Vestibulum tincidunt malesuada tellus. Ut ultrices ultrices enim.\n\
                Aenean laoreet. Vestibulum nisi lectus, commodo ac, facilisis\n\
                Integer nec odio. Praesent libero. Sed cursus ante dapibus diam.\n");

    assert_eq!(get_code(code, 7, 9),
               "Praesent blandit dolor. Sed non quam. In vel mi\n\
                Sed aliquet risus a tortor. Integer id quam. Morbi mi.\n\
                Nullam mauris orci, aliquet et, iaculis et, viverra vitae, ligula.\n\
                Praesent mauris. Fusce nec tellus sed ugue semper porta. Mauris massa.\n\
                Proin ut ligula vel nunc egestas porttitor. Morbi lectus risus,\n\
                Vestibulum sapien. Proin quam. Etiam ultrices. Suspendisse in\n\
                Vestibulum tincidunt malesuada tellus. Ut ultrices ultrices enim.\n\
                Aenean laoreet. Vestibulum nisi lectus, commodo ac, facilisis\n\
                Integer nec odio. Praesent libero. Sed cursus ante dapibus diam.\n\
                Pellentesque nibh. Aenean quam. In scelerisque sem at dolor.\n\
                Sed lacinia, urna non tincidunt mattis, tortor neque adipiscing\n");
}

#[test]
fn it_criticity() {
    assert_eq!(Criticity::from_str("warning").unwrap(), Criticity::Warning);
    assert_eq!(Criticity::from_str("Warning").unwrap(), Criticity::Warning);
    assert_eq!(Criticity::from_str("WARNING").unwrap(), Criticity::Warning);

    assert_eq!(Criticity::from_str("low").unwrap(), Criticity::Low);
    assert_eq!(Criticity::from_str("Low").unwrap(), Criticity::Low);
    assert_eq!(Criticity::from_str("LOW").unwrap(), Criticity::Low);

    assert_eq!(Criticity::from_str("medium").unwrap(), Criticity::Medium);
    assert_eq!(Criticity::from_str("Medium").unwrap(), Criticity::Medium);
    assert_eq!(Criticity::from_str("MEDIUM").unwrap(), Criticity::Medium);

    assert_eq!(Criticity::from_str("high").unwrap(), Criticity::High);
    assert_eq!(Criticity::from_str("High").unwrap(), Criticity::High);
    assert_eq!(Criticity::from_str("HIGH").unwrap(), Criticity::High);

    assert_eq!(Criticity::from_str("critical").unwrap(),
               Criticity::Critical);
    assert_eq!(Criticity::from_str("Critical").unwrap(),
               Criticity::Critical);
    assert_eq!(Criticity::from_str("CRITICAL").unwrap(),
               Criticity::Critical);

    assert!(Criticity::Warning < Criticity::Low);
    assert!(Criticity::Warning < Criticity::Medium);
    assert!(Criticity::Warning < Criticity::High);
    assert!(Criticity::Warning < Criticity::Critical);
    assert!(Criticity::Low < Criticity::Medium);
    assert!(Criticity::Low < Criticity::High);
    assert!(Criticity::Low < Criticity::Critical);
    assert!(Criticity::Medium < Criticity::High);
    assert!(Criticity::Medium < Criticity::Critical);
    assert!(Criticity::High < Criticity::Critical);

    assert_eq!(Criticity::Warning.as_str(), "warning");
    assert_eq!(Criticity::Low.as_str(), "low");
    assert_eq!(Criticity::Medium.as_str(), "medium");
    assert_eq!(Criticity::High.as_str(), "high");
    assert_eq!(Criticity::Critical.as_str(), "critical");

    assert_eq!(format!("{:?}", Criticity::Warning).as_str(), "Warning");
    assert_eq!(format!("{:?}", Criticity::Low).as_str(), "Low");
    assert_eq!(format!("{:?}", Criticity::Medium).as_str(), "Medium");
    assert_eq!(format!("{:?}", Criticity::High).as_str(), "High");
    assert_eq!(format!("{:?}", Criticity::Critical).as_str(), "Critical");
}

#[test]
fn criticity_rejects_other_names() {
    assert!(matches!(Criticity::from_str("warn"), Err(Error::ParseError)));
    assert!(matches!(Criticity::from_str(""), Err(Error::ParseError)));
    assert!(matches!(Criticity::from_str("criticals"), Err(Error::ParseError)));
    assert!(matches!(Criticity::from_str(" high"), Err(Error::ParseError)));
    assert!(matches!(Criticity::parse("hİgh"), Err(Error::ParseError)));
    assert_eq!(Criticity::parse("mEdIuM").unwrap(), Criticity::Medium);
}

#[test]
fn criticity_name_reads_back() {
    for c in [Criticity::Warning, Criticity::Low, Criticity::Medium, Criticity::High,
              Criticity::Critical] {
        assert_eq!(Criticity::from_str(c.as_str()).unwrap(), c);
        assert_eq!(Criticity::from_str(&c.as_str().to_uppercase()).unwrap(), c);
    }
}

#[test]
fn criticity_order_is_total() {
    let all = [Criticity::Warning, Criticity::Low, Criticity::Medium, Criticity::High,
               Criticity::Critical];
    for (i, a) in all.iter().enumerate() {
        for (j, b) in all.iter().enumerate() {
            assert_eq!(a.partial_cmp(b), i.partial_cmp(&j));
            assert_eq!(a.cmp(b), i.cmp(&j));
        }
    }
}

#[test]
fn get_code_edge_cases() {
    assert_eq!(get_code("", 0, 0), "");
    assert_eq!(get_code("one", 0, 0), "one\n");
    assert_eq!(get_code("a\r\nb\r\nc\n", 0, 0), "a\nb\nc\n");
    assert_eq!(get_code("a\r\r\nb\rc", 0, 0), "a\r\nb\rc\n");
    assert_eq!(get_code("a\n\nb\n", 0, 0), "a\n\nb\n");
    assert_eq!(get_code("a\nb\nc\nd\ne\nf\ng\nh\ni\nj\nk\nl", 2, 0), "a\nb\nc\nd\ne\n");
    assert_eq!(get_code("a\nb\nc\nd\ne\nf\ng\nh\ni\nj\nk\nl", 9, 6), "f\ng\nh\ni\nj\nk\n");
    assert_eq!(get_code("a\nb\nc\nd\ne\nf\ng\nh\ni\nj\nk\nl", 9, 0), "");
    assert_eq!(get_code("a\nb\nc\nd\ne\nf\ng\nh\ni\nj\nk\nl", 5, 5), "b\nc\nd\ne\nf\ng\nh\ni\nj\n");
    assert_eq!(get_code("a\nb\nc\nd\ne\nf\ng\nh\ni\nj\nk\nl", 0, 20), "a\nb\nc\nd\ne\n");
    assert_eq!(get_code("a\nb\nc", 3, 1), "a\nb\nc\n");
}

#[test]
fn error_exit_codes() {
    let code: i32 = Error::AppNotExists.into();
    assert_eq!(code, 10);
    let code: i32 = Error::ParseError.into();
    assert_eq!(code, 20);
    let code: i32 = Error::CodeNotFound.into();
    assert_eq!(code, 40);
    let code: i32 = Error::Config.into();
    assert_eq!(code, 50);
    let code: i32 = Error::Unknown.into();
    assert_eq!(code, 1);
    let io = std::io::Error::new(std::io::ErrorKind::Other, "boom");
    let code: i32 = Error::from(io).into();
    assert_eq!(code, 100);
    let json = JSONError::with_code_text(serde_json::error::ErrorCode::ExpectedColon,
                                         String::from("x"), 1, 2);
    let code: i32 = Error::JSONError(json).into();
    assert_eq!(code, 30);
}

#[test]
fn error_descriptions() {
    assert_eq!(Error::AppNotExists.description(), "the application has not been found");
    assert_eq!(Error::ParseError.description(), "there was an error in some parsing process");
    assert_eq!(Error::CodeNotFound.description(), "the code was not found in the file");
    assert_eq!(Error::Config.description(), "there was an error in the configuration");
    assert_eq!(Error::Unknown.description(), "an unknown error occurred");
    assert!(Error::Unknown.cause().is_none());
    let io = std::io::Error::new(std::io::ErrorKind::NotFound, "missing");
    let err = Error::from(io);
    assert_eq!(err.cause().unwrap().kind(), std::io::ErrorKind::NotFound);
}

#[test]
fn json_error_description() {
    let e = JSONError::new(serde_json::error::ErrorCode::ExpectedColon, 3, 17);
    assert_eq!(e.description(), "\"expected `:`\" at line 3 column 17");
    let e = JSONError::with_code_text(serde_json::error::ErrorCode::TrailingCharacters,
                                      String::from("trailing"), 1234567890, 0);
    assert_eq!(e.description(), "trailing at line 1234567890 column 0");
    let err = Error::JSONError(JSONError::new(serde_json::error::ErrorCode::InvalidNumber, 10, 9));
    assert_eq!(err.description(), "\"invalid number\" at line 10 column 9");
}

#[test]
fn json_failures_convert() {
    let bad: Result<i32, serde_json::Error> = serde_json::from_str("[1,");
    let err = Error::from(bad.unwrap_err());
    match err {
        Error::JSONError(ref j) => assert!(j.description().contains(" at line 1 column ")),
        ref other => panic!("unexpected {:?}", other),
    }
    let err = Error::from_json_failure(JsonFailure::Utf8);
    assert!(matches!(err, Error::ParseError));
    let io = std::io::Error::new(std::io::ErrorKind::Other, "pipe");
    assert!(matches!(Error::from_json_failure(JsonFailure::Io(io)), Error::IOError(_)));
    let err = Error::from_json_failure(JsonFailure::Syntax(
        serde_json::error::ErrorCode::ExpectedSomeValue, 2, 5));
    assert_eq!(err.description(), "\"expected value\" at line 2 column 5");
}

#[test]
fn vulnerability_reports() {
    assert_eq!(vulnerability_tone(Criticity::Warning), None);
    assert_eq!(vulnerability_tone(Criticity::Low), Some(Tone::Cyan));
    assert_eq!(vulnerability_tone(Criticity::Medium), Some(Tone::Yellow));
    assert_eq!(vulnerability_tone(Criticity::High), Some(Tone::Red));
    assert_eq!(vulnerability_tone(Criticity::Critical), Some(Tone::Red));
    assert_eq!(vulnerability_heading(Criticity::High),
               "Possible high criticity vulnerability found!:");
    assert_eq!(vulnerability_heading(Criticity::Low),
               "Possible low criticity vulnerability found!:");
}

#[test]
fn shown_lines_read_back_example() {
    let code = "l0\nl1\r\nl2\nl3\nl4\nl5\nl6\nl7\nl8\nl9\nl10\nl11";
    let shown = get_code(code, 6, 7);
    let back: Vec<&str> = shown.lines().collect();
    let window: Vec<&str> = code.lines().skip(2).take(10).collect();
    assert_eq!(back, window);
    assert_eq!(shown, "l2\nl3\nl4\nl5\nl6\nl7\nl8\nl9\nl10\nl11\n");
}
