//! The fixed script templates evaluated inside tab surfaces. Script
//! evaluation is the only channel into rendered content, so the texts
//! are part of the design: each getter's contract pins the exact text.

use vstd::prelude::*;

verus! {

/// Text of the initialization script installed into every page: safe
/// host-API access, interception of external-domain link clicks into
/// the new-tab path, and zero page margin and padding.
pub open spec fn init_script_text() -> Seq<char> {
    r#"
        function safeTauriInvoke(command, args) {
            return new Promise(function(resolve, reject) {
                if (typeof window.__TAURI__ !== 'undefined' &&
                    window.__TAURI__.core &&
                    typeof window.__TAURI__.core.invoke === 'function') {
                    window.__TAURI__.core.invoke(command, args)
                        .then(resolve)
                        .catch(reject);
                } else {
                    reject(new Error('Tauri API not available'));
                }
            });
        }

        function initLinkHandlers() {
            document.addEventListener('click', function(event) {
                let target = event.target;
                while (target && target.tagName !== 'A') {
                    target = target.parentElement;
                }

                if (target && target.href && target.href.startsWith('http')) {
                    if (target.hostname !== window.location.hostname) {
                        event.preventDefault();

                        safeTauriInvoke('open_url_in_new_tab', {
                            url: target.href
                        }).catch(function(error) {
                            console.error('Failed to open URL in new tab:', error);
                            window.location.href = target.href;
                        });
                    }
                }
            }, true);
        }

        document.addEventListener('DOMContentLoaded', function() {
            document.body.style.margin = '0';
            document.body.style.padding = '0';

            initLinkHandlers();

            setTimeout(function() {
                if (typeof window.__TAURI__ === 'undefined') {
                    console.log('Tauri API still not available, using fallback navigation');
                }
            }, 100);
        });
    "#@
}

/// The initialization script installed into every new surface.
pub fn get_webview_initialization_script() -> (r: &'static str)
    ensures
        r@ == init_script_text(),
{
    r#"
        function safeTauriInvoke(command, args) {
            return new Promise(function(resolve, reject) {
                if (typeof window.__TAURI__ !== 'undefined' &&
                    window.__TAURI__.core &&
                    typeof window.__TAURI__.core.invoke === 'function') {
                    window.__TAURI__.core.invoke(command, args)
                        .then(resolve)
                        .catch(reject);
                } else {
                    reject(new Error('Tauri API not available'));
                }
            });
        }

        function initLinkHandlers() {
            document.addEventListener('click', function(event) {
                let target = event.target;
                while (target && target.tagName !== 'A') {
                    target = target.parentElement;
                }

                if (target && target.href && target.href.startsWith('http')) {
                    if (target.hostname !== window.location.hostname) {
                        event.preventDefault();

                        safeTauriInvoke('open_url_in_new_tab', {
                            url: target.href
                        }).catch(function(error) {
                            console.error('Failed to open URL in new tab:', error);
                            window.location.href = target.href;
                        });
                    }
                }
            }, true);
        }

        document.addEventListener('DOMContentLoaded', function() {
            document.body.style.margin = '0';
            document.body.style.padding = '0';

            initLinkHandlers();

            setTimeout(function() {
                if (typeof window.__TAURI__ === 'undefined') {
                    console.log('Tauri API still not available, using fallback navigation');
                }
            }, 100);
        });
    "#
}

/// Text of the title-detection script: reads the current document
/// title and installs an observer that records later title mutations.
pub open spec fn title_detection_script_text() -> Seq<char> {
    r#"
        (function() {
            const title = document.title || document.querySelector('title')?.textContent || 'Новая вкладка';

            window._lastDetectedTitle = title;

            if (!window._titleObserverSet) {
                const titleObserver = new MutationObserver(() => {
                    const newTitle = document.title || document.querySelector('title')?.textContent || 'Новая вкладка';
                    if (newTitle !== window._lastDetectedTitle) {
                        window._lastDetectedTitle = newTitle;
                        window._pendingTitleUpdate = newTitle;
                    }
                });

                titleObserver.observe(document.querySelector('head') || document.documentElement, {
                    subtree: true,
                    childList: true
                });

                let originalTitleSetter = Object.getOwnPropertyDescriptor(Document.prototype, 'title')?.set;
                if (originalTitleSetter) {
                    Object.defineProperty(document, 'title', {
                        set: function(value) {
                            originalTitleSetter.call(this, value);
                            window._lastDetectedTitle = value;
                            window._pendingTitleUpdate = value;
                        },
                        get: function() {
                            return this.querySelector('title')?.textContent || '';
                        }
                    });
                }

                window._titleObserverSet = true;
            }

            return title;
        })();
    "#@
}

/// The title-detection script evaluated after each page load.
pub fn get_title_detection_script() -> (r: String)
    ensures
        r@ == title_detection_script_text(),
{
    r#"
        (function() {
            const title = document.title || document.querySelector('title')?.textContent || 'Новая вкладка';

            window._lastDetectedTitle = title;

            if (!window._titleObserverSet) {
                const titleObserver = new MutationObserver(() => {
                    const newTitle = document.title || document.querySelector('title')?.textContent || 'Новая вкладка';
                    if (newTitle !== window._lastDetectedTitle) {
                        window._lastDetectedTitle = newTitle;
                        window._pendingTitleUpdate = newTitle;
                    }
                });

                titleObserver.observe(document.querySelector('head') || document.documentElement, {
                    subtree: true,
                    childList: true
                });

                let originalTitleSetter = Object.getOwnPropertyDescriptor(Document.prototype, 'title')?.set;
                if (originalTitleSetter) {
                    Object.defineProperty(document, 'title', {
                        set: function(value) {
                            originalTitleSetter.call(this, value);
                            window._lastDetectedTitle = value;
                            window._pendingTitleUpdate = value;
                        },
                        get: function() {
                            return this.querySelector('title')?.textContent || '';
                        }
                    });
                }

                window._titleObserverSet = true;
            }

            return title;
        })();
    "#.to_owned()
}

/// Text of the media-detection script: reports whether the page hosts
/// audio or video elements, known media iframes, or Web Audio.
pub open spec fn media_detection_script_text() -> Seq<char> {
    r#"
        (function() {
            let hasAudio = false;

            document.querySelectorAll('audio').forEach(audio => {
                if (!audio.paused || audio.readyState > 0) {
                    hasAudio = true;
                }
            });

            document.querySelectorAll('video').forEach(video => {
                if (!video.paused || video.readyState > 0) {
                    hasAudio = true;
                }
            });

            if (document.querySelectorAll('iframe[src*="youtube.com"], iframe[src*="vimeo.com"], iframe[src*="soundcloud.com"]').length > 0) {
                hasAudio = true;
            }

            if (window.AudioContext || window.webkitAudioContext) {
                hasAudio = true;
            }

            return hasAudio;
        })()
    "#@
}

/// The media-detection script evaluated once per page load.
pub fn get_media_detection_script() -> (r: &'static str)
    ensures
        r@ == media_detection_script_text(),
{
    r#"
        (function() {
            let hasAudio = false;

            document.querySelectorAll('audio').forEach(audio => {
                if (!audio.paused || audio.readyState > 0) {
                    hasAudio = true;
                }
            });

            document.querySelectorAll('video').forEach(video => {
                if (!video.paused || video.readyState > 0) {
                    hasAudio = true;
                }
            });

            if (document.querySelectorAll('iframe[src*="youtube.com"], iframe[src*="vimeo.com"], iframe[src*="soundcloud.com"]').length > 0) {
                hasAudio = true;
            }

            if (window.AudioContext || window.webkitAudioContext) {
                hasAudio = true;
            }

            return hasAudio;
        })()
    "#
}

/// Text of the periodic media-activity script: true when any audio or
/// video element is actually playing.
pub open spec fn media_activity_script_text() -> Seq<char> {
    r#"
        (function() {
            let hasAudio = false;

            document.querySelectorAll('audio').forEach(audio => {
                if (!audio.paused && audio.currentTime > 0) {
                    hasAudio = true;
                }
            });

            document.querySelectorAll('video').forEach(video => {
                if (!video.paused && video.currentTime > 0) {
                    hasAudio = true;
                }
            });

            if (window.location.hostname.includes('youtube.com')) {
                const player = document.querySelector('video');
                if (player && !player.paused && player.currentTime > 0) {
                    hasAudio = true;
                }
            }

            return hasAudio;
        })()
    "#@
}

/// The script the periodic media poll re-evaluates at each tick.
pub fn get_media_activity_script() -> (r: &'static str)
    ensures
        r@ == media_activity_script_text(),
{
    r#"
        (function() {
            let hasAudio = false;

            document.querySelectorAll('audio').forEach(audio => {
                if (!audio.paused && audio.currentTime > 0) {
                    hasAudio = true;
                }
            });

            document.querySelectorAll('video').forEach(video => {
                if (!video.paused && video.currentTime > 0) {
                    hasAudio = true;
                }
            });

            if (window.location.hostname.includes('youtube.com')) {
                const player = document.querySelector('video');
                if (player && !player.paused && player.currentTime > 0) {
                    hasAudio = true;
                }
            }

            return hasAudio;
        })()
    "#
}

/// Text of the mute script: silences audio and video elements and asks
/// known iframe players to mute through postMessage.
pub open spec fn mute_script_text() -> Seq<char> {
    r#"
        (function() {
            document.querySelectorAll('audio').forEach(audio => {
                audio.muted = true;
            });

            document.querySelectorAll('video').forEach(video => {
                video.muted = true;
            });

            document.querySelectorAll('iframe').forEach(iframe => {
                try {
                    iframe.contentWindow.postMessage('{"event":"command","func":"mute","args":[]}', '*');
                } catch(e) {}
            });
        })();
    "#@
}

/// The script that mutes all media in a surface.
pub fn get_mute_script() -> (r: &'static str)
    ensures
        r@ == mute_script_text(),
{
    r#"
        (function() {
            document.querySelectorAll('audio').forEach(audio => {
                audio.muted = true;
            });

            document.querySelectorAll('video').forEach(video => {
                video.muted = true;
            });

            document.querySelectorAll('iframe').forEach(iframe => {
                try {
                    iframe.contentWindow.postMessage('{"event":"command","func":"mute","args":[]}', '*');
                } catch(e) {}
            });
        })();
    "#
}

/// Text of the unmute script: the mute script's inverse.
pub open spec fn unmute_script_text() -> Seq<char> {
    r#"
        (function() {
            document.querySelectorAll('audio').forEach(audio => {
                audio.muted = false;
            });

            document.querySelectorAll('video').forEach(video => {
                video.muted = false;
            });

            document.querySelectorAll('iframe').forEach(iframe => {
                try {
                    iframe.contentWindow.postMessage('{"event":"command","func":"unMute","args":[]}', '*');
                } catch(e) {}
            });
        })();
    "#@
}

/// The script that unmutes all media in a surface.
pub fn get_unmute_script() -> (r: &'static str)
    ensures
        r@ == unmute_script_text(),
{
    r#"
        (function() {
            document.querySelectorAll('audio').forEach(audio => {
                audio.muted = false;
            });

            document.querySelectorAll('video').forEach(video => {
                video.muted = false;
            });

            document.querySelectorAll('iframe').forEach(iframe => {
                try {
                    iframe.contentWindow.postMessage('{"event":"command","func":"unMute","args":[]}', '*');
                } catch(e) {}
            });
        })();
    "#
}

/// Text of the one-shot delayed title-extraction script.
pub open spec fn title_extraction_script_text() -> Seq<char> {
    r#"
        (function() {
            const title = document.title || document.querySelector('title')?.textContent || 'Новая вкладка';
            return title;
        })()
    "#@
}

/// The script the delayed title-extraction pass evaluates.
pub fn get_title_extraction_script() -> (r: &'static str)
    ensures
        r@ == title_extraction_script_text(),
{
    r#"
        (function() {
            const title = document.title || document.querySelector('title')?.textContent || 'Новая вкладка';
            return title;
        })()
    "#
}

} // verus!
