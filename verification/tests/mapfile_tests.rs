use wfs2map::mapfile::{make_mapfile_str, COMMENT_SIGN, MAPFILE_HEAD, MAPFILE_TAIL};

fn expected_mapfile(timestamp: i64) -> String {
    format!(
        "MAP
          NAME 'default'
          STATUS ON
          PROJECTION
            'init=epsg:3857'
          END
          EXTENT 73.498999 20.207173812500002 135.08835446875 53.561666
          UNITS DD
          DEBUG 5
          CONFIG 'CPL_DEBUG' 'ON'
          CONFIG 'CPL_TIMESTAMP' 'ON'
          CONFIG 'CPL_LOG' '/dev/stderr'
          CONFIG 'CPL_LOG_ERRORS' 'ON'
          CONFIG 'MS_ERRORFILE' '/dev/stderr'
          CONFIG 'GDAL_DISABLE_READDIR_ON_OPEN' 'TRUE'
          CONFIG 'GDAL_FORCE_CACHING' 'NO'
          CONFIG 'GDAL_CACHEMAX' '10%'
          CONFIG 'VSI_CACHE' 'FALSE'
          CONFIG 'VSI_CACHE_SIZE' '0'  # bytes
          CONFIG 'CPL_VSIL_CURL_CACHE_SIZE' '0'  # bytes
          SIZE 256 256
          IMAGECOLOR 255 255 255
          IMAGETYPE 'png'
          SHAPEPATH '/tmp'
          LAYER
            NAME'continents'
            TYPE POLYGON
            STATUS ON
            CONNECTION 'https://demo.mapserver.org/cgi-bin/wfs?'
            CONNECTIONTYPE WFS
            METADATA
              'wfs_typename'          'continents'
              'wfs_version'           '1.0.0'
              'wfs_connectiontimeout' '60'
              'wfs_maxfeatures'       '10'
            END
            PROJECTION
              'init=epsg:4326'
              #{}
            END
            CLASS
              NAME 'Continents'
              STYLE
                COLOR 255 128 128
                OUTLINECOLOR 96 96 96
              END
            END
          END
        END",
        timestamp
    )
}

#[test]
fn mapfile_matches_template_for_positive_timestamp() {
    assert_eq!(make_mapfile_str(1700000000), expected_mapfile(1700000000));
}

#[test]
fn mapfile_matches_template_for_zero() {
    assert_eq!(make_mapfile_str(0), expected_mapfile(0));
}

#[test]
fn mapfile_matches_template_for_negative_timestamp() {
    assert_eq!(make_mapfile_str(-45), expected_mapfile(-45));
}

#[test]
fn mapfile_matches_template_at_extremes() {
    assert_eq!(make_mapfile_str(i64::MIN), expected_mapfile(i64::MIN));
    assert_eq!(make_mapfile_str(i64::MAX), expected_mapfile(i64::MAX));
}

#[test]
fn mapfile_matches_template_for_round_numbers() {
    for t in [1i64, 9, 10, 99, 100, 1000, 10000, -1, -10, -100, 123456789] {
        assert_eq!(make_mapfile_str(t), expected_mapfile(t));
    }
}

#[test]
fn mapfile_writes_timestamp_after_projection_comment() {
    let text = make_mapfile_str(42);
    assert!(text.contains("'init=epsg:4326'\n              #42\n            END"));
    assert!(text.starts_with("MAP\n          NAME 'default'"));
    assert!(text.ends_with("END\n          END\n        END"));
    assert_eq!(text, format!("{}{}42{}", MAPFILE_HEAD, COMMENT_SIGN, MAPFILE_TAIL));
}

#[test]
fn mapfile_differs_for_different_timestamps() {
    assert_ne!(make_mapfile_str(5), make_mapfile_str(50));
    assert_ne!(make_mapfile_str(-5), make_mapfile_str(5));
}

fn strip_comments(text: &str) -> String {
    text.lines()
        .map(|line| match line.find('#') {
            Some(i) => &line[..i],
            None => line,
        })
        .collect::<Vec<_>>()
        .join("\n")
}

#[test]
fn timestamp_only_changes_comments() {
    let a = strip_comments(&make_mapfile_str(1));
    let b = strip_comments(&make_mapfile_str(-987654321));
    assert_eq!(a, b);
    assert!(!a.contains("987654321"));
}
