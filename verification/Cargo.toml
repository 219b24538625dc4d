[package]
name = "yewuse"
version = "0.1.0"
edition = "2021"
publish = false

[dependencies]
yew = "0.21"
web-sys = { version = "0.3", features = ["Window", "Document", "Element", "HtmlElement", "HtmlLinkElement", "HtmlHeadElement", "HtmlInputElement", "HtmlTextAreaElement", "HtmlSelectElement", "Node", "NodeList", "HtmlCollection", "DomTokenList", "CssStyleDeclaration", "Event", "EventTarget", "MouseEvent", "KeyboardEvent", "TouchEvent", "TouchList", "Touch", "MediaQueryList", "MediaQueryListEvent", "Navigator", "Clipboard", "DeviceOrientationEvent", "Geolocation", "GeolocationPosition", "GeolocationPositionError", "GeolocationCoordinates", "PositionOptions", "NetworkInformation", "ResizeObserver", "ResizeObserverEntry", "DomRect", "DomRectReadOnly", "IntersectionObserver", "IntersectionObserverEntry", "IntersectionObserverInit", "ScrollToOptions", "ScrollIntoViewOptions", "ScrollBehavior", "AddEventListenerOptions", "EventListenerOptions", "WebSocket", "MessageEvent", "CloseEvent", "console", "Text"] }
wasm-bindgen = "0.2"
wasm-bindgen-futures = "0.4"
js-sys = "0.3"
gloo = "0.10"
serde = { version = "1", features = ["derive"] }
