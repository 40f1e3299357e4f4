use horrorshow::{Raw, RenderOnce, Template, TemplateBuilder, __new_renderer};

#[test]
fn test_prim() {
    assert_eq!(
        __new_renderer(7, |mut tmpl: TemplateBuilder| {
            format!("{}", 1.01).render_once(&mut tmpl);
            format!("{}", 2i32).render_once(&mut tmpl);
            format!("{}", 3usize).render_once(&mut tmpl);
            format!("{}", 'c').render_once(&mut tmpl);
            tmpl
        })
        .into_string(),
        "1.0123c"
    );
}

#[test]
fn test_hyphen() {
    assert_eq!(
        __new_renderer(22, |mut tmpl: TemplateBuilder| {
            tmpl.write_raw("<foo-bar>");
            __new_renderer(3, |mut tmpl: TemplateBuilder| {
                "foo".render_once(&mut tmpl);
                tmpl
            })
            .render_once(&mut tmpl);
            tmpl.write_raw("</foo-bar>");
            tmpl
        })
        .into_string(),
        "<foo-bar>foo</foo-bar>"
    );
    assert_eq!(
        __new_renderer(22, |mut tmpl: TemplateBuilder| {
            tmpl.write_raw("<foo-bar>");
            "foo".render_once(&mut tmpl);
            tmpl.write_raw("</foo-bar>");
            tmpl
        })
        .into_string(),
        "<foo-bar>foo</foo-bar>"
    );
    assert_eq!(
        __new_renderer(19, |mut tmpl: TemplateBuilder| {
            tmpl.write_raw("<foo-bar>");
            tmpl.write_raw("</foo-bar>");
            tmpl
        })
        .into_string(),
        "<foo-bar></foo-bar>"
    );
}

#[test]
fn test_reentrant() {
    assert_eq!(
        &__new_renderer(7, |mut tmpl: TemplateBuilder| {
            tmpl.write_raw("<p>");
            format!(
                "{}",
                __new_renderer(20, |mut tmpl: TemplateBuilder| {
                    tmpl.write_raw("<a");
                    tmpl.write_raw(" href=\"");
                    tmpl.write_str("abcde");
                    tmpl.write_raw("\"");
                    tmpl.write_raw(">");
                    tmpl.write_raw("</a>");
                    tmpl
                })
                .into_string()
            )
            .render_once(&mut tmpl);
            tmpl.write_raw("</p>");
            tmpl
        })
        .into_string(),
        "<p>&lt;a href=&quot;abcde&quot;&gt;&lt;/a&gt;</p>"
    );

    assert_eq!(
        &__new_renderer(7, |mut tmpl: TemplateBuilder| {
            tmpl.write_raw("<p>");
            __new_renderer(20, |mut tmpl: TemplateBuilder| {
                tmpl.write_raw("<a");
                tmpl.write_raw(" href=\"");
                tmpl.write_str("abcde");
                tmpl.write_raw("\"");
                tmpl.write_raw(">");
                tmpl.write_raw("</a>");
                tmpl
            })
            .into_string()
            .render_once(&mut tmpl);
            tmpl.write_raw("</p>");
            tmpl
        })
        .into_string(),
        "<p>&lt;a href=&quot;abcde&quot;&gt;&lt;/a&gt;</p>"
    );

    assert_eq!(
        &__new_renderer(7, |mut tmpl: TemplateBuilder| {
            tmpl.write_raw("<p>");
            Raw::new(
                __new_renderer(20, |mut tmpl: TemplateBuilder| {
                    tmpl.write_raw("<a");
                    tmpl.write_raw(" href=\"");
                    tmpl.write_str("abcde");
                    tmpl.write_raw("\"");
                    tmpl.write_raw(">");
                    tmpl.write_raw("</a>");
                    tmpl
                })
                .into_string(),
            )
            .render_once(&mut tmpl);
            tmpl.write_raw("</p>");
            tmpl
        })
        .into_string(),
        "<p><a href=\"abcde\"></a></p>"
    );
}

#[test]
fn test_option() {
    assert_eq!(
        __new_renderer(11, |mut tmpl: TemplateBuilder| {
            tmpl.write_raw("<tag>");
            Some("testing").render_once(&mut tmpl);
            tmpl.write_raw("</tag>");
            tmpl
        })
        .into_string(),
        "<tag>testing</tag>"
    );

    assert_eq!(
        __new_renderer(11, |mut tmpl: TemplateBuilder| {
            tmpl.write_raw("<tag>");
            None::<&str>.render_once(&mut tmpl);
            tmpl.write_raw("</tag>");
            tmpl
        })
        .into_string(),
        "<tag></tag>"
    );
}

#[test]
fn test_into_string_by_ref() {
    let f = |mut tmpl: TemplateBuilder| {
        "test".render_once(&mut tmpl);
        tmpl
    };
    let r = __new_renderer(0, f);
    assert_eq!((&r).into_string(), "test");
    assert_eq!((&r).into_string(), "test");
}

#[test]
fn test_embed_twice() {
    let r = __new_renderer(0, |mut tmpl: TemplateBuilder| {
        let f = |mut tmpl: TemplateBuilder| {
            "abcde".render_once(&mut tmpl);
            tmpl
        };
        let sub = __new_renderer(5, f);
        (&sub).render_once(&mut tmpl);
        (&sub).render_once(&mut tmpl);
        tmpl
    });
    assert_eq!(r.into_string(), "abcdeabcde");
}

#[test]
fn test_display() {
    let f = |mut tmpl: TemplateBuilder| {
        "test".render_once(&mut tmpl);
        tmpl
    };
    let r = __new_renderer(0, f);
    let s = r.to_string();
    assert_eq!(&s, "test");
}
