//! The welcome page served at `/hello`.

use vstd::prelude::*;

verus! {

/// The name the welcome page shows, in its title and its heading.
pub const SERVICE_NAME: &'static str = "Auth Service";

/// What comes between the doctype and the title.
pub const PAGE_HEAD: &'static str = r#"
<html lang="en">
<head>
    <meta charset="UTF-8">
    <meta name="viewport" content="width=device-width, initial-scale=1.0">
    "#;

/// What comes between the title and the heading.
pub const PAGE_MIDDLE: &'static str = r#"
    <style>
        * {
            margin: 0;
            padding: 0;
            box-sizing: border-box;
        }

        body {
            font-family: 'Segoe UI', Tahoma, Geneva, Verdana, sans-serif;
            background: linear-gradient(135deg, #667eea 0%, #764ba2 100%);
            min-height: 100vh;
            display: flex;
            align-items: center;
            justify-content: center;
            color: #333;
        }

        .container {
            background: white;
            border-radius: 20px;
            box-shadow: 0 20px 60px rgba(0, 0, 0, 0.3);
            padding: 60px;
            max-width: 600px;
            text-align: center;
            animation: fadeIn 0.8s ease-in;
        }

        @keyframes fadeIn {
            from {
                opacity: 0;
                transform: translateY(20px);
            }
            to {
                opacity: 1;
                transform: translateY(0);
            }
        }

        .logo {
            width: 80px;
            height: 80px;
            background: linear-gradient(135deg, #667eea 0%, #764ba2 100%);
            border-radius: 50%;
            margin: 0 auto 30px;
            display: flex;
            align-items: center;
            justify-content: center;
            font-size: 40px;
            color: white;
            box-shadow: 0 10px 25px rgba(102, 126, 234, 0.4);
        }

        h1 {
            font-size: 42px;
            color: #2d3748;
            margin-bottom: 20px;
            font-weight: 700;
        }

        .subtitle {
            font-size: 18px;
            color: #718096;
            margin-bottom: 40px;
            line-height: 1.6;
        }

        .features {
            display: grid;
            gap: 20px;
            margin-top: 40px;
        }

        .feature {
            background: #f7fafc;
            padding: 20px;
            border-radius: 12px;
            border-left: 4px solid #667eea;
            text-align: left;
            transition: transform 0.3s ease, box-shadow 0.3s ease;
        }

        .feature:hover {
            transform: translateX(5px);
            box-shadow: 0 5px 15px rgba(102, 126, 234, 0.2);
        }

        .feature-title {
            font-weight: 600;
            color: #2d3748;
            margin-bottom: 8px;
            font-size: 16px;
        }

        .feature-desc {
            color: #718096;
            font-size: 14px;
            line-height: 1.5;
        }

        .status {
            display: inline-flex;
            align-items: center;
            gap: 8px;
            background: #48bb78;
            color: white;
            padding: 10px 20px;
            border-radius: 25px;
            font-weight: 600;
            margin-top: 30px;
            box-shadow: 0 4px 12px rgba(72, 187, 120, 0.3);
        }

        .status-dot {
            width: 10px;
            height: 10px;
            background: white;
            border-radius: 50%;
            animation: pulse 2s infinite;
        }

        @keyframes pulse {
            0%, 100% {
                opacity: 1;
            }
            50% {
                opacity: 0.5;
            }
        }
    </style>
</head>
<body>
    <div class="container">
        <div class="logo">🔐</div>
        "#;

/// What comes between the heading and the closing `</html>`.
pub const PAGE_TAIL: &'static str = r#"
        <p class="subtitle">
            Secure, scalable authentication service built with Rust and Axum
        </p>

        <div class="features">
            <div class="feature">
                <div class="feature-title">🚀 High Performance</div>
                <div class="feature-desc">Built with Rust for maximum speed and reliability</div>
            </div>
            <div class="feature">
                <div class="feature-title">🛡️ Secure by Design</div>
                <div class="feature-desc">Industry-standard security practices and encryption</div>
            </div>
            <div class="feature">
                <div class="feature-title">⚡ Lightning Fast</div>
                <div class="feature-desc">Powered by Axum and Tokio for async performance</div>
            </div>
        </div>

        <div class="status">
            <div class="status-dot"></div>
            Service Online
        </div>
    </div>
</body>
"#;

/// The name the welcome page shows.
pub open spec fn service_name() -> Seq<char> {
    SERVICE_NAME@
}

/// The title element of the welcome page.
pub open spec fn title_element() -> Seq<char> {
    "<title>"@ + service_name() + "</title>"@
}

/// The heading element of the welcome page.
pub open spec fn heading_element() -> Seq<char> {
    "<h1>"@ + service_name() + "</h1>"@
}

/// The whole welcome page, one fixed HTML document.
pub open spec fn welcome_page() -> Seq<char> {
    "<!DOCTYPE html>"@ + PAGE_HEAD@ + title_element() + PAGE_MIDDLE@ + heading_element()
        + PAGE_TAIL@ + "</html>"@
}

/// `needle` occurs in `hay` as a contiguous run of characters.
pub open spec fn contains_text(hay: Seq<char>, needle: Seq<char>) -> bool {
    exists|i: int|
        0 <= i && i + needle.len() <= hay.len() && #[trigger] hay.subrange(i, i + needle.len())
            == needle
}

/// The welcome page: the same document on every call, from its doctype to
/// its closing `</html>`, with the service's name as title and heading.
pub fn hello_page() -> (r: String)
    ensures
        r@ == welcome_page(),
        r@.subrange(0, "<!DOCTYPE html>"@.len() as int) == "<!DOCTYPE html>"@,
        r@.subrange(r@.len() - "</html>"@.len(), r@.len() as int) == "</html>"@,
        contains_text(r@, title_element()),
        contains_text(r@, heading_element()),
{
    let mut page = String::from_str("<!DOCTYPE html>");
    page.append(PAGE_HEAD);
    let title_at: Ghost<int> = Ghost(page@.len() as int);
    page.append("<title>");
    page.append(SERVICE_NAME);
    page.append("</title>");
    page.append(PAGE_MIDDLE);
    let heading_at: Ghost<int> = Ghost(page@.len() as int);
    page.append("<h1>");
    page.append(SERVICE_NAME);
    page.append("</h1>");
    page.append(PAGE_TAIL);
    page.append("</html>");
    proof {
        let p = page@;
        assert(p =~= welcome_page());
        assert(p.subrange(0, "<!DOCTYPE html>"@.len() as int) =~= "<!DOCTYPE html>"@);
        assert(p.subrange(p.len() - "</html>"@.len(), p.len() as int) =~= "</html>"@);
        assert(p.subrange(title_at@, title_at@ + title_element().len()) =~= title_element());
        assert(p.subrange(heading_at@, heading_at@ + heading_element().len())
            =~= heading_element());
    }
    page
}

} // verus!
