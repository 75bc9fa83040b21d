use http_pipeline::body::{Application, Audio, ContentType, Image, Multipart, Text, Video};

#[test]
fn application_test() {
    {
        let actual: ContentType = ContentType::Application(Application::EDI_X12);
        assert_eq!(actual.to_string(), "application/EDI-X12");
    }

    {
        let actual: ContentType = ContentType::Application(Application::EDIFACT);
        assert_eq!(actual.to_string(), "application/EDIFACT");
    }

    {
        let actual: ContentType = ContentType::Application(Application::javascript);
        assert_eq!(actual.to_string(), "application/javascript");
    }

    {
        let actual: ContentType = ContentType::Application(Application::octet_stream);
        assert_eq!(actual.to_string(), "application/octet-stream");
    }

    {
        let actual: ContentType = ContentType::Application(Application::ogg);
        assert_eq!(actual.to_string(), "application/ogg");
    }

    {
        let actual: ContentType = ContentType::Application(Application::pdf);
        assert_eq!(actual.to_string(), "application/pdf");
    }

    {
        let actual: ContentType = ContentType::Application(Application::xhtml_xml);
        assert_eq!(actual.to_string(), "application/xhtml+xml");
    }

    {
        let actual: ContentType = ContentType::Application(Application::x_shockwave_flash);
        assert_eq!(actual.to_string(), "application/x-shockwave-flash");
    }

    {
        let actual: ContentType = ContentType::Application(Application::json);
        assert_eq!(actual.to_string(), "application/json");
    }

    {
        let actual: ContentType = ContentType::Application(Application::ld_json);
        assert_eq!(actual.to_string(), "application/ld+json");
    }

    {
        let actual: ContentType = ContentType::Application(Application::xml);
        assert_eq!(actual.to_string(), "application/xml");
    }

    {
        let actual: ContentType = ContentType::Application(Application::zip);
        assert_eq!(actual.to_string(), "application/zip");
    }

    {
        let actual: ContentType =
            ContentType::Application(Application::x_www_form_urlencoded);
        assert_eq!(actual.to_string(), "application/x-www-form-urlencoded");
    }
}

#[test]
fn audio_test() {
    {
        let actual: ContentType = ContentType::Audio(Audio::mpeg);
        assert_eq!(actual.to_string(), "audio/mpeg");
    }

    {
        let actual: ContentType = ContentType::Audio(Audio::x_ms_wma);
        assert_eq!(actual.to_string(), "audio/x-ms-wma");
    }

    {
        let actual: ContentType = ContentType::Audio(Audio::vnd_rn_realaudio);
        assert_eq!(actual.to_string(), "audio/vnd.rn-realaudio");
    }

    {
        let actual: ContentType = ContentType::Audio(Audio::x_wav);
        assert_eq!(actual.to_string(), "audio/x-wav");
    }
}

#[test]
fn image_test() {
    {
        let actual: ContentType = ContentType::Image(Image::gif);
        assert_eq!(actual.to_string(), "image/gif");
    }

    {
        let actual: ContentType = ContentType::Image(Image::jpeg);
        assert_eq!(actual.to_string(), "image/jpeg");
    }

    {
        let actual: ContentType = ContentType::Image(Image::png);
        assert_eq!(actual.to_string(), "image/png");
    }

    {
        let actual: ContentType = ContentType::Image(Image::tiff);
        assert_eq!(actual.to_string(), "image/tiff");
    }

    {
        let actual: ContentType = ContentType::Image(Image::vnd_microsoft_icon);
        assert_eq!(actual.to_string(), "image/vnd.microsoft.icon");
    }

    {
        let actual: ContentType = ContentType::Image(Image::x_icon);
        assert_eq!(actual.to_string(), "image/x-icon");
    }

    {
        let actual: ContentType = ContentType::Image(Image::vnd_djvu);
        assert_eq!(actual.to_string(), "image/vnd.djvu");
    }

    {
        let actual: ContentType = ContentType::Image(Image::svg_xml);
        assert_eq!(actual.to_string(), "image/svg+xml");
    }
}

#[test]
fn multipart_test() {
    {
        let actual: ContentType = ContentType::Multipart(Multipart::mixed);
        assert_eq!(actual.to_string(), "multipart/mixed");
    }

    {
        let actual: ContentType = ContentType::Multipart(Multipart::alternative);
        assert_eq!(actual.to_string(), "multipart/alternative");
    }

    {
        let actual: ContentType = ContentType::Multipart(Multipart::related);
        assert_eq!(actual.to_string(), "multipart/related");
    }

    // {
    //     let actual: ContentType = ContentType::Multipart(Multipart::form_data {
    //         boundary: String::from(""),
    //     });
    //     assert_eq!(actual.to_string(), "multipart/form-data");
    // }
}

#[test]
fn text_test() {
    {
        let actual: ContentType = ContentType::Text(Text::css);
        assert_eq!(actual.to_string(), "text/css");
    }

    {
        let actual: ContentType = ContentType::Text(Text::csv);
        assert_eq!(actual.to_string(), "text/csv");
    }

    {
        let actual: ContentType = ContentType::Text(Text::html);
        assert_eq!(actual.to_string(), "text/html");
    }

    {
        let actual: ContentType = ContentType::Text(Text::javascript);
        assert_eq!(actual.to_string(), "text/javascript");
    }

    {
        let actual: ContentType = ContentType::Text(Text::plain);
        assert_eq!(actual.to_string(), "text/plain");
    }

    {
        let actual: ContentType = ContentType::Text(Text::xml);
        assert_eq!(actual.to_string(), "text/xml");
    }
}

#[test]
fn video_test() {
    {
        let actual: ContentType = ContentType::Video(Video::mpeg);
        assert_eq!(actual.to_string(), "video/mpeg");
    }

    {
        let actual: ContentType = ContentType::Video(Video::mp4);
        assert_eq!(actual.to_string(), "video/mp4");
    }

    {
        let actual: ContentType = ContentType::Video(Video::quicktime);
        assert_eq!(actual.to_string(), "video/quicktime");
    }

    {
        let actual: ContentType = ContentType::Video(Video::x_ms_wmv);
        assert_eq!(actual.to_string(), "video/x-ms-wmv");
    }

    {
        let actual: ContentType = ContentType::Video(Video::x_msvideo);
        assert_eq!(actual.to_string(), "video/x-msvideo");
    }

    {
        let actual: ContentType = ContentType::Video(Video::x_flv);
        assert_eq!(actual.to_string(), "video/x-flv");
    }

    {
        let actual: ContentType = ContentType::Video(Video::webm);
        assert_eq!(actual.to_string(), "video/webm");
    }
}


fn string_to_enum_test(input_str: &str, expected: ContentType) {
    let actual = ContentType::new(input_str);

    match actual {
        Ok(actual) => {
            assert_eq!(actual.to_string(), expected.to_string());
        }
        _ => panic!("Request::from_str Error"),
    }
}

#[test]
fn application_edi_x12_test() {
    string_to_enum_test(
        "application/EDI-X12",
        ContentType::Application(Application::EDI_X12),
    );
}

#[test]
fn application_edifact_test() {
    string_to_enum_test(
        "application/EDIFACT",
        ContentType::Application(Application::EDIFACT),
    );
}

#[test]
fn application_javascript_test() {
    string_to_enum_test(
        "application/javascript",
        ContentType::Application(Application::javascript),
    );
}

#[test]
fn application_octet_stream_test() {
    string_to_enum_test(
        "application/octet-stream",
        ContentType::Application(Application::octet_stream),
    );
}

#[test]
fn application_ogg_test() {
    string_to_enum_test(
        "application/ogg",
        ContentType::Application(Application::ogg),
    );
}

#[test]
fn application_pdf_test() {
    string_to_enum_test(
        "application/pdf",
        ContentType::Application(Application::pdf),
    );
}

#[test]
fn application_xhtml_xml_test() {
    string_to_enum_test(
        "application/xhtml+xml",
        ContentType::Application(Application::xhtml_xml),
    );
}

#[test]
fn application_x_shockwave_flash_test() {
    string_to_enum_test(
        "application/x-shockwave-flash",
        ContentType::Application(Application::x_shockwave_flash),
    );
}

#[test]
fn application_json_test() {
    string_to_enum_test(
        "application/json",
        ContentType::Application(Application::json),
    );
}

#[test]
fn application_ld_json_test() {
    string_to_enum_test(
        "application/ld+json",
        ContentType::Application(Application::ld_json),
    );
}

#[test]
fn application_zip_test() {
    string_to_enum_test(
        "application/zip",
        ContentType::Application(Application::zip),
    );
}

#[test]
fn application_x_www_form_urlencoded_test() {
    string_to_enum_test(
        "application/x-www-form-urlencoded",
        ContentType::Application(Application::x_www_form_urlencoded),
    );
}

#[test]
fn audio_mpeg_test() {
    string_to_enum_test("audio/mpeg", ContentType::Audio(Audio::mpeg));
}

#[test]
fn audio_vnd_rn_realaudio_test() {
    string_to_enum_test(
        "audio/vnd.rn-realaudio",
        ContentType::Audio(Audio::vnd_rn_realaudio),
    );
}

#[test]
fn audio_x_wav_test() {
    string_to_enum_test("audio/x-wav", ContentType::Audio(Audio::x_wav));
}

#[test]
fn image_gif_test() {
    string_to_enum_test("image/gif", ContentType::Image(Image::gif));
}

#[test]
fn image_jpeg_test() {
    string_to_enum_test("image/jpeg", ContentType::Image(Image::jpeg));
}

#[test]
fn image_png_test() {
    string_to_enum_test("image/png", ContentType::Image(Image::png));
}

#[test]
fn image_tiff_test() {
    string_to_enum_test("image/tiff", ContentType::Image(Image::tiff));
}

#[test]
fn image_vnd_microsoft_icon_test() {
    string_to_enum_test(
        "image/vnd.microsoft.icon",
        ContentType::Image(Image::vnd_microsoft_icon),
    );
}

#[test]
fn image_x_icon_test() {
    string_to_enum_test("image/x-icon", ContentType::Image(Image::x_icon));
}

#[test]
fn image_vnd_djvu_test() {
    string_to_enum_test("image/vnd.djvu", ContentType::Image(Image::vnd_djvu));
}

#[test]
fn image_svg_xml_test() {
    string_to_enum_test("image/svg+xml", ContentType::Image(Image::svg_xml));
}

#[test]
fn multipart_mixed_test() {
    string_to_enum_test("multipart/mixed", ContentType::Multipart(Multipart::mixed));
}

#[test]
fn multipart_alternative_test() {
    string_to_enum_test(
        "multipart/alternative",
        ContentType::Multipart(Multipart::alternative),
    );
}

#[test]
fn multipart_related_test() {
    string_to_enum_test(
        "multipart/related",
        ContentType::Multipart(Multipart::related),
    );
}

// #[test]
// fn multipart_form_data_test() {
//     string_to_enum_test(
//         "multipart/form-data",
//         ContentType::Multipart(Multipart::form_data {
//             boundary: String::from(""),
//         }),
//     );
// }

#[test]
fn text_css_test() {
    string_to_enum_test("text/css", ContentType::Text(Text::css));
}

#[test]
fn text_csv_test() {
    string_to_enum_test("text/csv", ContentType::Text(Text::csv));
}

#[test]
fn text_html_test() {
    string_to_enum_test("text/html", ContentType::Text(Text::html));
}

#[test]
fn text_javascript_test() {
    string_to_enum_test("text/javascript", ContentType::Text(Text::javascript));
}

#[test]
fn text_plain_test() {
    string_to_enum_test("text/plain", ContentType::Text(Text::plain));
}

#[test]
fn text_xml_test() {
    string_to_enum_test("text/xml", ContentType::Text(Text::xml));
}

#[test]
fn video_mpeg_test() {
    string_to_enum_test("video/mpeg", ContentType::Video(Video::mpeg));
}

#[test]
fn video_mp4_test() {
    string_to_enum_test("video/mp4", ContentType::Video(Video::mp4));
}

#[test]
fn video_quicktime_test() {
    string_to_enum_test("video/quicktime", ContentType::Video(Video::quicktime));
}

#[test]
fn video_x_ms_wmv_test() {
    string_to_enum_test("video/x-ms-wmv", ContentType::Video(Video::x_ms_wmv));
}

#[test]
fn video_x_msvideo_test() {
    string_to_enum_test("video/x-msvideo", ContentType::Video(Video::x_msvideo));
}

#[test]
fn video_x_flv_test() {
    string_to_enum_test("video/x-flv", ContentType::Video(Video::x_flv));
}

#[test]
fn video_x_webm_test() {
    string_to_enum_test("video/webm", ContentType::Video(Video::webm));
}
